//! Hook handles, the commands handed to the host, and the mathematical model
//! of the hook set with the rules by which it changes.

use vstd::prelude::*;

verus! {

/// The two kinds of low-level hook, one for each feature: the mouse hook
/// serves the hot corner, the keyboard hook the left-Windows-key blocker.
#[derive(Clone, Copy, Debug, PartialEq, Eq, Structural)]
pub enum HookKind {
    Mouse,
    Keyboard,
}

/// The handle of an installed hook: the non-null value that the operating
/// system gave for it.
#[derive(Clone, Copy, Debug, PartialEq, Eq, Structural)]
pub struct HookHandle {
    raw: usize,
}

impl View for HookHandle {
    type V = usize;

    closed spec fn view(&self) -> usize {
        self.raw
    }
}

impl HookHandle {
    #[verifier::type_invariant]
    spec fn non_null(self) -> bool {
        self.raw != 0
    }

    /// Reads what the operating system returned for an installation: the
    /// null value says that it refused, any other value is the handle.
    pub fn from_raw(raw: usize) -> (handle: Option<HookHandle>)
        ensures
            handle is None <==> raw == 0,
            handle matches Some(h) ==> h@ == raw,
    {
        if raw == 0 {
            None
        } else {
            Some(HookHandle { raw })
        }
    }

    /// The value to hand back to the operating system; never null.
    pub fn raw(&self) -> (raw: usize)
        ensures
            raw == self@,
            raw != 0,
    {
        proof {
            use_type_invariant(self);
        }
        self.raw
    }
}

/// What the host has to do with the operating system.
#[derive(Clone, Copy, Debug, PartialEq, Eq, Structural)]
pub enum HookCommand {
    /// Install a low-level hook of this kind, bound to the hook procedure of
    /// its feature, and report what came back.
    Register(HookKind),
    /// Remove this hook. Whether the removal succeeds is of no concern.
    Unregister { kind: HookKind, handle: HookHandle },
}

/// The operating system refused to install a hook of this kind.
#[derive(Clone, Copy, Debug, PartialEq, Eq, Structural)]
pub struct HookRegistrationError {
    pub kind: HookKind,
}

/// The commands in an optional command: one or none.
pub open spec fn commands_of(command: Option<HookCommand>) -> Seq<HookCommand> {
    match command {
        Some(c) => seq![c],
        None => Seq::empty(),
    }
}

/// The hook set as a mathematical value: for each feature, whether it is
/// enabled and the handle of its hook, if one is installed.
pub struct HookSet {
    pub hot_corner_enabled: bool,
    pub lwin_blocker_enabled: bool,
    pub mouse_hook: Option<HookHandle>,
    pub keyboard_hook: Option<HookHandle>,
}

impl HookSet {
    /// The hook set with both features disabled and no hook installed.
    pub open spec fn idle() -> HookSet {
        HookSet {
            hot_corner_enabled: false,
            lwin_blocker_enabled: false,
            mouse_hook: None,
            keyboard_hook: None,
        }
    }

    /// Flags and handles agree: a feature is enabled if and only if the
    /// handle of its hook is held.
    pub open spec fn wf(self) -> bool {
        &&& self.hot_corner_enabled == self.mouse_hook.is_some()
        &&& self.lwin_blocker_enabled == self.keyboard_hook.is_some()
    }

    /// Whether the feature served by hooks of this kind is enabled.
    pub open spec fn enabled(self, kind: HookKind) -> bool {
        match kind {
            HookKind::Mouse => self.hot_corner_enabled,
            HookKind::Keyboard => self.lwin_blocker_enabled,
        }
    }

    /// The handle held for hooks of this kind.
    pub open spec fn hook(self, kind: HookKind) -> Option<HookHandle> {
        match kind {
            HookKind::Mouse => self.mouse_hook,
            HookKind::Keyboard => self.keyboard_hook,
        }
    }

    /// The hook set with the handle of this kind replaced, and the flag of
    /// its feature set to match.
    pub open spec fn with_hook(self, kind: HookKind, hook: Option<HookHandle>) -> HookSet {
        match kind {
            HookKind::Mouse => HookSet {
                hot_corner_enabled: hook.is_some(),
                mouse_hook: hook,
                ..self
            },
            HookKind::Keyboard => HookSet {
                lwin_blocker_enabled: hook.is_some(),
                keyboard_hook: hook,
                ..self
            },
        }
    }

    /// What enabling a feature asks of the host: to install its hook, unless
    /// the feature is enabled already.
    pub open spec fn enable_request(self, kind: HookKind) -> Option<HookCommand> {
        if self.enabled(kind) {
            None
        } else {
            Some(HookCommand::Register(kind))
        }
    }

    /// The hook set after the host has reported the outcome of an
    /// installation: a handle is taken if the feature is disabled, and
    /// nothing changes otherwise.
    pub open spec fn after_registration(
        self,
        kind: HookKind,
        outcome: Option<HookHandle>,
    ) -> HookSet {
        match outcome {
            Some(handle) => if self.enabled(kind) {
                self
            } else {
                self.with_hook(kind, Some(handle))
            },
            None => self,
        }
    }

    /// The answer to the report of an installation: an error if the operating
    /// system refused; else the command to remove the new hook again where
    /// the feature already has one, and no command where the hook was taken.
    pub open spec fn registration_reply(
        self,
        kind: HookKind,
        outcome: Option<HookHandle>,
    ) -> Result<Option<HookCommand>, HookRegistrationError> {
        match outcome {
            None => Err(HookRegistrationError { kind }),
            Some(handle) => if self.enabled(kind) {
                Ok(Some(HookCommand::Unregister { kind, handle }))
            } else {
                Ok(None)
            },
        }
    }

    /// What disabling a feature asks of the host: to remove the hook that is
    /// held for it, if there is one.
    pub open spec fn disable_request(self, kind: HookKind) -> Option<HookCommand> {
        match self.hook(kind) {
            Some(handle) => Some(HookCommand::Unregister { kind, handle }),
            None => None,
        }
    }

    /// The hook set after a feature has been disabled.
    pub open spec fn after_disable(self, kind: HookKind) -> HookSet {
        self.with_hook(kind, None)
    }

    /// What the default policy asks of the host: the hot corner on, the
    /// left-Windows-key blocker off.
    pub open spec fn default_policy_requests(self) -> Seq<HookCommand> {
        commands_of(self.enable_request(HookKind::Mouse)) + commands_of(
            self.disable_request(HookKind::Keyboard),
        )
    }

    /// What disposal asks of the host: to remove every hook that is held,
    /// the mouse hook first.
    pub open spec fn dispose_requests(self) -> Seq<HookCommand> {
        commands_of(self.disable_request(HookKind::Mouse)) + commands_of(
            self.disable_request(HookKind::Keyboard),
        )
    }
}

} // verus!
