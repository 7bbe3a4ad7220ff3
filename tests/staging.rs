use kswitch::staging::{
    execute_command, image_path, load_command, load_outcome, plan_load, switch_outcome,
    StagingError, StagingRequest, SwitchError,
};

fn names(v: &[&str]) -> Vec<String> {
    v.iter().map(|s| s.to_string()).collect()
}

#[test]
fn image_path_of_version() {
    assert_eq!(image_path("5.10.0"), "/boot/vmlinuz-5.10.0");
}

#[test]
fn plan_load_builds_request() {
    let listing = names(&["vmlinuz-5.10.0", "initrd.img-5.10.0"]);
    let r = plan_load("5.10.0", &listing, Some("  root=/dev/sda1 ro quiet\n".to_string()));
    assert_eq!(
        r,
        Ok(StagingRequest {
            image_path: "/boot/vmlinuz-5.10.0".to_string(),
            initrd_path: "/boot/initrd.img-5.10.0".to_string(),
            cmdline: "root=/dev/sda1 ro quiet".to_string(),
        })
    );
}

#[test]
fn plan_load_without_initrd() {
    let listing = names(&["vmlinuz-5.10.0"]);
    let r = plan_load("5.10.0", &listing, Some("ro".to_string()));
    assert_eq!(r, Err(StagingError::InitrdNotFound));
}

#[test]
fn plan_load_without_cmdline() {
    let listing = names(&["vmlinuz-5.10.0", "initramfs-5.10.0"]);
    let r = plan_load("5.10.0", &listing, None);
    assert_eq!(r, Err(StagingError::CmdlineUnreadable));
}

#[test]
fn plan_load_initrd_error_comes_first() {
    let r = plan_load("5.10.0", &Vec::new(), None);
    assert_eq!(r, Err(StagingError::InitrdNotFound));
}

#[test]
fn load_command_arguments() {
    let req = StagingRequest {
        image_path: "/boot/vmlinuz-6.1".to_string(),
        initrd_path: "/boot/initrd.img-6.1".to_string(),
        cmdline: "ro quiet".to_string(),
    };
    assert_eq!(
        load_command(&req),
        names(&[
            "sudo",
            "kexec",
            "-l",
            "/boot/vmlinuz-6.1",
            "--initrd=/boot/initrd.img-6.1",
            "--command-line=ro quiet",
        ])
    );
}

#[test]
fn execute_command_arguments() {
    assert_eq!(execute_command(), names(&["sudo", "kexec", "-e"]));
}

#[test]
fn outcomes_of_exit_status() {
    assert_eq!(load_outcome(true, "ignored".to_string()), Ok(()));
    assert_eq!(
        load_outcome(false, "no such file".to_string()),
        Err(StagingError::CommandFailed("no such file".to_string()))
    );
    assert_eq!(switch_outcome(true, String::new()), Ok(()));
    assert_eq!(
        switch_outcome(false, "denied".to_string()),
        Err(SwitchError::CommandFailed("denied".to_string()))
    );
}

#[test]
fn error_messages() {
    assert_eq!(
        StagingError::InitrdNotFound.message("5.10.0"),
        "No initrd file found for version 5.10.0"
    );
    assert_eq!(StagingError::CmdlineUnreadable.message("5.10.0"), "Cannot read the boot command line");
    assert_eq!(
        StagingError::CommandFailed("bad image".to_string()).message("5.10.0"),
        "kexec load failed: bad image"
    );
    assert_eq!(
        SwitchError::CommandFailed("denied".to_string()).message(),
        "kexec execute failed: denied"
    );
}
