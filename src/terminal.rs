use vstd::prelude::*;

verus! {

/// Which mode the terminal is in, and so which change of mode is due: the
/// interactive display (raw input, alternate screen) for browsing, plain line
/// mode for prompts and for the privileged operations.
#[derive(Debug, Clone, Copy, PartialEq, Eq, Structural)]
pub struct TerminalMode {
    pub interactive: bool,
}

/// A change of terminal mode that the caller is to make.
#[derive(Debug, Clone, Copy, PartialEq, Eq, Structural)]
pub enum ModeChange {
    Enter,
    Leave,
    Keep,
}

impl TerminalMode {
    /// Line mode: nothing has been acquired yet.
    pub fn new() -> (r: TerminalMode)
        ensures
            !r.interactive,
    {
        TerminalMode { interactive: false }
    }

    /// Takes the interactive display; `Enter` only where it was not held.
    pub fn acquire(&mut self) -> (c: ModeChange)
        ensures
            final(self).interactive,
            c == (if old(self).interactive {
                ModeChange::Keep
            } else {
                ModeChange::Enter
            }),
    {
        let was = self.interactive;
        self.interactive = true;
        if was {
            ModeChange::Keep
        } else {
            ModeChange::Enter
        }
    }

    /// Gives the interactive display back; `Leave` only where it was held, so
    /// that releasing twice, or before any acquisition, does nothing.
    pub fn release(&mut self) -> (c: ModeChange)
        ensures
            !final(self).interactive,
            c == (if old(self).interactive {
                ModeChange::Leave
            } else {
                ModeChange::Keep
            }),
    {
        let was = self.interactive;
        self.interactive = false;
        if was {
            ModeChange::Leave
        } else {
            ModeChange::Keep
        }
    }

    /// Brings the mode in line with the selection: the interactive display
    /// while browsing, line mode while confirming.
    pub fn settle(&mut self, browsing: bool) -> (c: ModeChange)
        ensures
            final(self).interactive == browsing,
            c == (if old(self).interactive == browsing {
                ModeChange::Keep
            } else if browsing {
                ModeChange::Enter
            } else {
                ModeChange::Leave
            }),
    {
        if browsing {
            self.acquire()
        } else {
            self.release()
        }
    }
}

} // verus!
