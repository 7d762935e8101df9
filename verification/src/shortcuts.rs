//! The hook lifecycle manager.
//!
//! [`ShortcutsExecutor`] keeps, for each feature, whether it is enabled and
//! the handle of its hook. It never touches the operating system: switching
//! a feature yields the command the host has to carry out, and the host
//! reports the outcome of an installation with
//! [`ShortcutsExecutor::hook_registered`].

use vstd::prelude::*;
use crate::callbacks::{
    keyboard_callback, keyboard_verdict, mouse_callback, mouse_synthesis, mouse_verdict,
    MouseResponse,
};
use crate::event::{KeyboardEvent, MouseEvent, Verdict};
use crate::hooks::{HookCommand, HookHandle, HookKind, HookRegistrationError, HookSet};
use crate::keys::{KeyStroke, VK_LWIN};

verus! {

/// What becomes of a mouse event under a hook set: the mouse hook decides
/// while the hot corner is enabled, and the event passes through otherwise,
/// because the operating system calls a hook only while it is installed.
pub open spec fn mouse_outcome(hooks: HookSet, event: MouseEvent) -> Verdict {
    if hooks.hot_corner_enabled {
        mouse_verdict(event)
    } else {
        Verdict::PassThrough
    }
}

/// The keystrokes injected for a mouse event under a hook set: those of the
/// mouse hook while the hot corner is enabled, none otherwise.
pub open spec fn mouse_injection(hooks: HookSet, event: MouseEvent) -> Seq<KeyStroke> {
    if hooks.hot_corner_enabled {
        mouse_synthesis(event)
    } else {
        Seq::empty()
    }
}

/// What becomes of a keyboard event under a hook set: the keyboard hook
/// decides while the blocker is enabled, and the event passes through
/// otherwise.
pub open spec fn keyboard_outcome(hooks: HookSet, event: KeyboardEvent) -> Verdict {
    if hooks.lwin_blocker_enabled {
        keyboard_verdict(event)
    } else {
        Verdict::PassThrough
    }
}

/// Owns at most one mouse hook and at most one keyboard hook, and decides
/// when each is installed and removed.
#[derive(Debug)]
pub struct ShortcutsExecutor {
    hc_enabled: bool,
    lwin_blocker_enabled: bool,
    mouse_hook: Option<HookHandle>,
    kb_hook: Option<HookHandle>,
}

impl View for ShortcutsExecutor {
    type V = HookSet;

    closed spec fn view(&self) -> HookSet {
        HookSet {
            hot_corner_enabled: self.hc_enabled,
            lwin_blocker_enabled: self.lwin_blocker_enabled,
            mouse_hook: self.mouse_hook,
            keyboard_hook: self.kb_hook,
        }
    }
}

impl ShortcutsExecutor {
    #[verifier::type_invariant]
    spec fn consistent(self) -> bool {
        &&& self.hc_enabled == self.mouse_hook.is_some()
        &&& self.lwin_blocker_enabled == self.kb_hook.is_some()
    }

    /// A hook set with both features disabled and no hook installed.
    pub fn new() -> (executor: ShortcutsExecutor)
        ensures
            executor@ == HookSet::idle(),
            executor@.wf(),
    {
        ShortcutsExecutor {
            hc_enabled: false,
            lwin_blocker_enabled: false,
            mouse_hook: None,
            kb_hook: None,
        }
    }

    /// Tests whether the feature served by hooks of this kind is enabled,
    /// which is to say whether its hook is installed.
    pub fn is_enabled(&self, kind: HookKind) -> (enabled: bool)
        ensures
            enabled == self@.enabled(kind),
            enabled == self@.hook(kind).is_some(),
            self@.wf(),
    {
        proof {
            use_type_invariant(self);
        }
        match kind {
            HookKind::Mouse => self.hc_enabled,
            HookKind::Keyboard => self.lwin_blocker_enabled,
        }
    }

    /// Asks for a feature to be enabled. Nothing is asked of the host if it
    /// is enabled already; else the host has to install the hook and report
    /// the outcome with `hook_registered`, which is where the feature
    /// becomes enabled.
    pub fn enable(&self, kind: HookKind) -> (command: Option<HookCommand>)
        ensures
            command == self@.enable_request(kind),
            self@.enabled(kind) ==> command is None,
            !self@.enabled(kind) ==> command == Some(HookCommand::Register(kind)),
    {
        if self.is_enabled(kind) {
            None
        } else {
            Some(HookCommand::Register(kind))
        }
    }

    /// Takes the host's report of an installation of a hook of this kind:
    /// the handle, or `None` if the operating system refused.
    ///
    /// A refusal is an error and changes nothing. A handle is kept and the
    /// feature becomes enabled, unless the feature already has a hook: then
    /// nothing changes and the host is told to remove the new hook again, so
    /// that there is never a second one.
    pub fn hook_registered(&mut self, kind: HookKind, outcome: Option<HookHandle>) -> (reply:
        Result<Option<HookCommand>, HookRegistrationError>)
        ensures
            final(self)@ == old(self)@.after_registration(kind, outcome),
            reply == old(self)@.registration_reply(kind, outcome),
            final(self)@.wf(),
            reply is Err <==> outcome is None,
            reply is Err ==> final(self)@ == old(self)@,
            outcome is Some && !old(self)@.enabled(kind) ==> final(self)@.enabled(kind)
                && final(self)@.hook(kind) == outcome,
    {
        proof {
            use_type_invariant(&*self);
        }
        match outcome {
            None => Err(HookRegistrationError { kind }),
            Some(handle) => {
                if self.is_enabled(kind) {
                    Ok(Some(HookCommand::Unregister { kind, handle }))
                } else {
                    match kind {
                        HookKind::Mouse => {
                            *self = ShortcutsExecutor {
                                hc_enabled: true,
                                lwin_blocker_enabled: self.lwin_blocker_enabled,
                                mouse_hook: Some(handle),
                                kb_hook: self.kb_hook,
                            };
                        },
                        HookKind::Keyboard => {
                            *self = ShortcutsExecutor {
                                hc_enabled: self.hc_enabled,
                                lwin_blocker_enabled: true,
                                mouse_hook: self.mouse_hook,
                                kb_hook: Some(handle),
                            };
                        },
                    }
                    Ok(None)
                }
            },
        }
    }

    /// Disables a feature: its handle is given up and the host is told to
    /// remove the hook. Nothing happens if the feature is disabled already.
    /// The feature is disabled from here on, whatever becomes of the removal.
    pub fn disable(&mut self, kind: HookKind) -> (command: Option<HookCommand>)
        ensures
            final(self)@ == old(self)@.after_disable(kind),
            command == old(self)@.disable_request(kind),
            final(self)@.wf(),
            !final(self)@.enabled(kind),
            final(self)@.hook(kind) is None,
            !old(self)@.enabled(kind) ==> command is None && final(self)@ == old(self)@,
    {
        proof {
            use_type_invariant(&*self);
        }
        match kind {
            HookKind::Mouse => {
                let held = self.mouse_hook;
                *self = ShortcutsExecutor {
                    hc_enabled: false,
                    lwin_blocker_enabled: self.lwin_blocker_enabled,
                    mouse_hook: None,
                    kb_hook: self.kb_hook,
                };
                match held {
                    Some(handle) => Some(HookCommand::Unregister { kind, handle }),
                    None => None,
                }
            },
            HookKind::Keyboard => {
                let held = self.kb_hook;
                *self = ShortcutsExecutor {
                    hc_enabled: self.hc_enabled,
                    lwin_blocker_enabled: false,
                    mouse_hook: self.mouse_hook,
                    kb_hook: None,
                };
                match held {
                    Some(handle) => Some(HookCommand::Unregister { kind, handle }),
                    None => None,
                }
            },
        }
    }

    /// Asks for the hot corner to be enabled; see `enable`.
    pub fn enable_hot_corner(&self) -> (command: Option<HookCommand>)
        ensures
            command == self@.enable_request(HookKind::Mouse),
            self@.hot_corner_enabled ==> command is None,
            !self@.hot_corner_enabled ==> command == Some(HookCommand::Register(HookKind::Mouse)),
    {
        self.enable(HookKind::Mouse)
    }

    /// Disables the hot corner; see `disable`.
    pub fn disable_hot_corner(&mut self) -> (command: Option<HookCommand>)
        ensures
            final(self)@ == old(self)@.after_disable(HookKind::Mouse),
            command == old(self)@.disable_request(HookKind::Mouse),
            final(self)@.wf(),
            !final(self)@.hot_corner_enabled,
            final(self)@.mouse_hook is None,
            !old(self)@.hot_corner_enabled ==> command is None && final(self)@ == old(self)@,
    {
        self.disable(HookKind::Mouse)
    }

    /// Tests whether the hot corner is enabled, which is to say whether the
    /// mouse hook is installed.
    pub fn is_hot_corner_enabled(&self) -> (enabled: bool)
        ensures
            enabled == self@.hot_corner_enabled,
            enabled == self@.mouse_hook.is_some(),
    {
        self.is_enabled(HookKind::Mouse)
    }

    /// Asks for the left-Windows-key blocker to be enabled; see `enable`.
    pub fn enable_lwin_blocker(&self) -> (command: Option<HookCommand>)
        ensures
            command == self@.enable_request(HookKind::Keyboard),
            self@.lwin_blocker_enabled ==> command is None,
            !self@.lwin_blocker_enabled ==> command == Some(
                HookCommand::Register(HookKind::Keyboard),
            ),
    {
        self.enable(HookKind::Keyboard)
    }

    /// Disables the left-Windows-key blocker; see `disable`.
    pub fn disable_lwin_blocker(&mut self) -> (command: Option<HookCommand>)
        ensures
            final(self)@ == old(self)@.after_disable(HookKind::Keyboard),
            command == old(self)@.disable_request(HookKind::Keyboard),
            final(self)@.wf(),
            !final(self)@.lwin_blocker_enabled,
            final(self)@.keyboard_hook is None,
            !old(self)@.lwin_blocker_enabled ==> command is None && final(self)@ == old(self)@,
    {
        self.disable(HookKind::Keyboard)
    }

    /// Tests whether the left-Windows-key blocker is enabled, which is to say
    /// whether the keyboard hook is installed.
    pub fn is_lwin_blocker_enabled(&self) -> (enabled: bool)
        ensures
            enabled == self@.lwin_blocker_enabled,
            enabled == self@.keyboard_hook.is_some(),
    {
        self.is_enabled(HookKind::Keyboard)
    }

    /// Applies the policy a hook set starts with: the hot corner on, the
    /// left-Windows-key blocker off. Returns what the host has to do for it,
    /// in order. The blocker is disabled at once; the hot corner becomes
    /// enabled when the host reports its hook.
    pub fn apply_default_policy(&mut self) -> (commands: Vec<HookCommand>)
        ensures
            final(self)@ == old(self)@.after_disable(HookKind::Keyboard),
            commands@ == old(self)@.default_policy_requests(),
            final(self)@.wf(),
            !final(self)@.lwin_blocker_enabled,
            old(self)@ == HookSet::idle() ==> final(self)@ == HookSet::idle() && commands@
                == seq![HookCommand::Register(HookKind::Mouse)],
    {
        let mut commands: Vec<HookCommand> = Vec::new();
        if let Some(command) = self.enable_hot_corner() {
            commands.push(command);
        }
        if let Some(command) = self.disable_lwin_blocker() {
            commands.push(command);
        }
        commands
    }

    /// Gives up every hook, whatever the flags say, and returns the commands
    /// that remove them, the mouse hook first. Afterwards both features are
    /// disabled and no handle is held.
    pub fn dispose(&mut self) -> (commands: Vec<HookCommand>)
        ensures
            final(self)@ == HookSet::idle(),
            commands@ == old(self)@.dispose_requests(),
            !final(self)@.hot_corner_enabled,
            !final(self)@.lwin_blocker_enabled,
            final(self)@.mouse_hook is None,
            final(self)@.keyboard_hook is None,
    {
        let mut commands: Vec<HookCommand> = Vec::new();
        if let Some(command) = self.disable(HookKind::Mouse) {
            commands.push(command);
        }
        if let Some(command) = self.disable(HookKind::Keyboard) {
            commands.push(command);
        }
        commands
    }

    /// Says what becomes of a mouse event under this hook set: the decision
    /// of `mouse_callback` while the hot corner is enabled; while it is
    /// disabled the event passes through and nothing is injected.
    pub fn on_mouse_event(&self, event: &MouseEvent) -> (response: MouseResponse)
        ensures
            response.verdict == mouse_outcome(self@, *event),
            response.keys@ == mouse_injection(self@, *event),
            !event.spec_is_left_button_down() ==> response.verdict == Verdict::PassThrough
                && response.keys@.len() == 0,
    {
        if self.hc_enabled {
            mouse_callback(event)
        } else {
            MouseResponse { verdict: Verdict::PassThrough, keys: Vec::new() }
        }
    }

    /// Says what becomes of a keyboard event under this hook set: the
    /// decision of `keyboard_callback` while the blocker is enabled; while it
    /// is disabled the event passes through.
    pub fn on_keyboard_event(&self, event: &KeyboardEvent) -> (verdict: Verdict)
        ensures
            verdict == keyboard_outcome(self@, *event),
            self@.lwin_blocker_enabled && event.spec_carries_key(VK_LWIN) ==> verdict
                == Verdict::Consume,
            !self@.lwin_blocker_enabled ==> verdict == Verdict::PassThrough,
            !event.spec_carries_key(VK_LWIN) ==> verdict == Verdict::PassThrough,
    {
        if self.lwin_blocker_enabled {
            keyboard_callback(event)
        } else {
            Verdict::PassThrough
        }
    }
}

} // verus!
