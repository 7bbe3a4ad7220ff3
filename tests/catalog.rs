use kswitch::catalog::{discover, resolve, DiscoveryError, ResolutionError};

fn names(v: &[&str]) -> Vec<String> {
    v.iter().map(|s| s.to_string()).collect()
}

#[test]
fn catalog_of_mixed_directory() {
    let listing = names(&["vmlinuz-5.10.0", "vmlinuz-5.15.0", "initrd.img-5.10.0", "initramfs-5.15.0"]);
    assert_eq!(discover(Some(listing)), Ok(names(&["5.10.0", "5.15.0"])));
}

#[test]
fn catalog_sorts_as_strings() {
    let listing = names(&["vmlinuz-5.9.0", "vmlinuz-5.10.0"]);
    assert_eq!(discover(Some(listing)), Ok(names(&["5.10.0", "5.9.0"])));
}

#[test]
fn catalog_drops_duplicates_and_other_files() {
    let listing = names(&[
        "vmlinuz-6.1.0",
        "config-6.1.0",
        "vmlinuz-5.4.0",
        "vmlinuz-6.1.0",
        "System.map-6.1.0",
        "vmlinuz-",
        "xvmlinuz-7.0",
    ]);
    assert_eq!(discover(Some(listing)), Ok(names(&["", "5.4.0", "6.1.0"])));
}

#[test]
fn catalog_of_missing_directory() {
    assert_eq!(discover(None), Err(DiscoveryError::MissingDirectory));
}

#[test]
fn catalog_of_empty_directory() {
    assert_eq!(discover(Some(Vec::new())), Err(DiscoveryError::Empty));
}

#[test]
fn catalog_without_kernel_images() {
    let listing = names(&["initrd.img-5.10.0", "grub", "vmlinu-1"]);
    assert_eq!(discover(Some(listing)), Err(DiscoveryError::Empty));
}

#[test]
fn resolve_finds_both_prefixes() {
    let listing = names(&["vmlinuz-5.10.0", "vmlinuz-5.15.0", "initrd.img-5.10.0", "initramfs-5.15.0"]);
    assert_eq!(resolve(&listing, "5.10.0"), Ok("/boot/initrd.img-5.10.0".to_string()));
    assert_eq!(resolve(&listing, "5.15.0"), Ok("/boot/initramfs-5.15.0".to_string()));
}

#[test]
fn resolve_matches_substring_anywhere() {
    let listing = names(&["initramfs-linux-5.1.0-rc1.img"]);
    assert_eq!(resolve(&listing, "5.1.0"), Ok("/boot/initramfs-linux-5.1.0-rc1.img".to_string()));
}

#[test]
fn resolve_takes_first_match_in_listing_order() {
    let listing = names(&["initrd.img-5.1.0-rc1", "initrd.img-5.1.0"]);
    assert_eq!(resolve(&listing, "5.1.0"), Ok("/boot/initrd.img-5.1.0-rc1".to_string()));
}

#[test]
fn resolve_needs_a_prefix() {
    let listing = names(&["vmlinuz-5.10.0", "initrd-5.10.0", "xinitrd.img-5.10.0"]);
    assert_eq!(resolve(&listing, "5.10.0"), Err(ResolutionError::NotFound));
}

#[test]
fn resolve_in_empty_directory() {
    assert_eq!(resolve(&Vec::new(), "5.10.0"), Err(ResolutionError::NotFound));
}
