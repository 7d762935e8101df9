//! A model of the host that drives a hook set, and what holds of the two
//! together.
//!
//! The model pairs the hook set with the hooks that are installed in the
//! operating system. Its host carries out every command it is handed before
//! it does anything else. All of it is mathematics: nothing here runs.

use vstd::prelude::*;
use vstd::multiset::Multiset;
use crate::event::{KeyboardEvent, MouseEvent, Verdict};
use crate::hooks::{commands_of, HookCommand, HookHandle, HookKind, HookSet};
use crate::keys::{task_view_sequence, KeyStroke, VK_LWIN};
use crate::shortcuts::{keyboard_outcome, mouse_injection, mouse_outcome};

verus! {

/// The hooks that a handle slot accounts for: the one it holds, or none.
pub open spec fn held(hook: Option<HookHandle>) -> Multiset<HookHandle> {
    match hook {
        Some(handle) => Multiset::singleton(handle),
        None => Multiset::empty(),
    }
}

/// A hook set and the hooks that are installed in the operating system, for
/// each kind with the number of times that each handle is installed.
pub struct Host {
    pub hooks: HookSet,
    pub mouse_installed: Multiset<HookHandle>,
    pub keyboard_installed: Multiset<HookHandle>,
}

/// One thing a host does with its hook set.
pub enum Step {
    /// Enables a feature; where that asks for a hook, the operating system
    /// answers the installation with this outcome, which is reported.
    Enable(HookKind, Option<HookHandle>),
    /// Installs a hook without having been asked to, with this outcome, and
    /// reports it.
    Install(HookKind, Option<HookHandle>),
    /// Disables a feature.
    Disable(HookKind),
    /// Disposes of the hook set.
    Dispose,
}

impl Host {
    /// A host that has just started: an idle hook set, nothing installed.
    pub open spec fn fresh() -> Host {
        Host {
            hooks: HookSet::idle(),
            mouse_installed: Multiset::empty(),
            keyboard_installed: Multiset::empty(),
        }
    }

    /// The installed hooks of one kind.
    pub open spec fn installed(self, kind: HookKind) -> Multiset<HookHandle> {
        match kind {
            HookKind::Mouse => self.mouse_installed,
            HookKind::Keyboard => self.keyboard_installed,
        }
    }

    /// The hook set accounts for every installed hook and holds no handle of
    /// a hook that is not installed; and its flags and handles agree.
    pub open spec fn coherent(self) -> bool {
        &&& self.hooks.wf()
        &&& self.mouse_installed == held(self.hooks.mouse_hook)
        &&& self.keyboard_installed == held(self.hooks.keyboard_hook)
    }

    /// The operating system answers an installation: with a handle the hook
    /// is installed, without one nothing is.
    pub open spec fn os_installs(self, kind: HookKind, outcome: Option<HookHandle>) -> Host {
        match outcome {
            Some(handle) => match kind {
                HookKind::Mouse => Host {
                    mouse_installed: self.mouse_installed.insert(handle),
                    ..self
                },
                HookKind::Keyboard => Host {
                    keyboard_installed: self.keyboard_installed.insert(handle),
                    ..self
                },
            },
            None => self,
        }
    }

    /// The host carries out the commands, one after the other. To install is
    /// not among what it does here: that needs the operating system's answer.
    pub open spec fn carries_out(self, commands: Seq<HookCommand>) -> Host
        decreases commands.len(),
    {
        if commands.len() == 0 {
            self
        } else {
            let before = self.carries_out(commands.drop_last());
            match commands.last() {
                HookCommand::Unregister { kind: HookKind::Mouse, handle } => Host {
                    mouse_installed: before.mouse_installed.remove(handle),
                    ..before
                },
                HookCommand::Unregister { kind: HookKind::Keyboard, handle } => Host {
                    keyboard_installed: before.keyboard_installed.remove(handle),
                    ..before
                },
                HookCommand::Register(_) => before,
            }
        }
    }

    /// An installation is answered and reported to the hook set, and the
    /// host carries out the reply.
    pub open spec fn reports(self, kind: HookKind, outcome: Option<HookHandle>) -> Host {
        let answered = Host {
            hooks: self.hooks.after_registration(kind, outcome),
            ..self.os_installs(kind, outcome)
        };
        match self.hooks.registration_reply(kind, outcome) {
            Ok(command) => answered.carries_out(commands_of(command)),
            Err(_) => answered,
        }
    }

    /// The host does one step.
    pub open spec fn step(self, step: Step) -> Host {
        match step {
            Step::Enable(kind, outcome) => match self.hooks.enable_request(kind) {
                Some(_) => self.reports(kind, outcome),
                None => self,
            },
            Step::Install(kind, outcome) => self.reports(kind, outcome),
            Step::Disable(kind) => Host {
                hooks: self.hooks.after_disable(kind),
                ..self
            }.carries_out(commands_of(self.hooks.disable_request(kind))),
            Step::Dispose => Host { hooks: HookSet::idle(), ..self }.carries_out(
                self.hooks.dispose_requests(),
            ),
        }
    }

    /// The host does the steps, one after the other.
    pub open spec fn run(self, steps: Seq<Step>) -> Host
        decreases steps.len(),
    {
        if steps.len() == 0 {
            self
        } else {
            self.run(steps.drop_last()).step(steps.last())
        }
    }
}

/// To carry out one command, or none, is to remove the hook it names.
proof fn lemma_carries_out_one(host: Host, command: Option<HookCommand>)
    ensures
        host.carries_out(commands_of(command)) == (match command {
            Some(HookCommand::Unregister { kind: HookKind::Mouse, handle }) => Host {
                mouse_installed: host.mouse_installed.remove(handle),
                ..host
            },
            Some(HookCommand::Unregister { kind: HookKind::Keyboard, handle }) => Host {
                keyboard_installed: host.keyboard_installed.remove(handle),
                ..host
            },
            _ => host,
        }),
{
    let commands = commands_of(command);
    if command is Some {
        assert(commands.drop_last() =~= Seq::empty());
        reveal_with_fuel(Host::carries_out, 2);
    }
}

/// Every step keeps a coherent host coherent: flags and handles agree, and
/// the hooks installed are exactly those whose handles are held.
pub proof fn lemma_step_keeps_coherence(host: Host, step: Step)
    requires
        host.coherent(),
    ensures
        host.step(step).coherent(),
{
    let hooks = host.hooks;
    match step {
        Step::Enable(kind, outcome) => {
            if hooks.enable_request(kind) is Some {
                lemma_report_keeps_coherence(host, kind, outcome);
            }
        },
        Step::Install(kind, outcome) => {
            lemma_report_keeps_coherence(host, kind, outcome);
        },
        Step::Disable(kind) => {
            let cleared = Host { hooks: hooks.after_disable(kind), ..host };
            lemma_carries_out_one(cleared, hooks.disable_request(kind));
            let after = host.step(step);
            assert(after.mouse_installed =~= held(after.hooks.mouse_hook));
            assert(after.keyboard_installed =~= held(after.hooks.keyboard_hook));
        },
        Step::Dispose => {
            lemma_dispose_empties(host);
        },
    }
}

/// A report keeps a coherent host coherent, whether the hook set had asked
/// for the installation or not.
pub proof fn lemma_report_keeps_coherence(
    host: Host,
    kind: HookKind,
    outcome: Option<HookHandle>,
)
    requires
        host.coherent(),
    ensures
        host.reports(kind, outcome).coherent(),
{
    let answered = Host {
        hooks: host.hooks.after_registration(kind, outcome),
        ..host.os_installs(kind, outcome)
    };
    match host.hooks.registration_reply(kind, outcome) {
        Ok(command) => {
            lemma_carries_out_one(answered, command);
        },
        Err(_) => {},
    }
    let after = host.reports(kind, outcome);
    assert(after.mouse_installed =~= held(after.hooks.mouse_hook));
    assert(after.keyboard_installed =~= held(after.hooks.keyboard_hook));
}

/// After disposal both features are disabled, no handle is held, and no
/// hook remains installed.
pub proof fn lemma_dispose_empties(host: Host)
    requires
        host.coherent(),
    ensures
        host.step(Step::Dispose).hooks == HookSet::idle(),
        host.step(Step::Dispose).mouse_installed == Multiset::<HookHandle>::empty(),
        host.step(Step::Dispose).keyboard_installed == Multiset::<HookHandle>::empty(),
        host.step(Step::Dispose).coherent(),
{
    let hooks = host.hooks;
    let cleared = Host { hooks: HookSet::idle(), ..host };
    let first = commands_of(hooks.disable_request(HookKind::Mouse));
    let second = commands_of(hooks.disable_request(HookKind::Keyboard));
    let all = hooks.dispose_requests();
    let after = host.step(Step::Dispose);
    assert(after == cleared.carries_out(all));
    lemma_carries_out_one(cleared, hooks.disable_request(HookKind::Mouse));
    let middle = cleared.carries_out(first);
    lemma_carries_out_one(middle, hooks.disable_request(HookKind::Keyboard));
    if second.len() == 0 {
        assert(all =~= first);
    } else {
        assert(all.drop_last() =~= first);
        assert(all.last() == second[0]);
    }
    assert(after.mouse_installed =~= Multiset::<HookHandle>::empty());
    assert(after.keyboard_installed =~= Multiset::<HookHandle>::empty());
}

/// Whatever the host does, in whatever order, and whatever the operating
/// system answers: flags and handles agree afterwards, the hooks installed
/// are exactly those whose handles are held, and so each feature has one
/// hook installed while it is enabled and none while it is disabled.
pub proof fn lemma_run_keeps_coherence(host: Host, steps: Seq<Step>)
    requires
        host.coherent(),
    ensures
        host.run(steps).coherent(),
        host.run(steps).hooks.wf(),
        forall|kind: HookKind|
            #![trigger host.run(steps).installed(kind)]
            host.run(steps).installed(kind).len() == (if host.run(steps).hooks.enabled(kind) {
                1nat
            } else {
                0nat
            }),
    decreases steps.len(),
{
    if steps.len() > 0 {
        lemma_run_keeps_coherence(host, steps.drop_last());
        lemma_step_keeps_coherence(host.run(steps.drop_last()), steps.last());
    }
    lemma_one_hook_while_enabled(host.run(steps), HookKind::Mouse);
    lemma_one_hook_while_enabled(host.run(steps), HookKind::Keyboard);
}

/// In a coherent host a feature has exactly one hook installed while it is
/// enabled, the one whose handle is held, and none while it is disabled.
pub proof fn lemma_one_hook_while_enabled(host: Host, kind: HookKind)
    requires
        host.coherent(),
    ensures
        host.installed(kind).len() == (if host.hooks.enabled(kind) {
            1nat
        } else {
            0nat
        }),
        host.installed(kind) == held(host.hooks.hook(kind)),
        host.hooks.enabled(kind) == host.hooks.hook(kind).is_some(),
{
}

/// Enabling a feature twice in a row leaves the host as enabling it once
/// does: the second call asks for nothing and changes nothing, so there is
/// still a single hook. This is stated of every case but the one in which
/// the first installation is refused and the second is granted, where the
/// second call is the one that enables the feature.
pub proof fn lemma_enable_twice(
    host: Host,
    kind: HookKind,
    first: Option<HookHandle>,
    second: Option<HookHandle>,
)
    requires
        host.coherent(),
        host.hooks.enabled(kind) || first is Some || second is None,
    ensures
        host.step(Step::Enable(kind, first)).step(Step::Enable(kind, second)) == host.step(
            Step::Enable(kind, first),
        ),
        host.step(Step::Enable(kind, first)).hooks.enabled(kind) ==> host.step(
            Step::Enable(kind, first),
        ).hooks.enable_request(kind) is None && host.step(Step::Enable(kind, first)).installed(
            kind,
        ).len() == 1,
{
    let once = host.step(Step::Enable(kind, first));
    lemma_step_keeps_coherence(host, Step::Enable(kind, first));
    lemma_one_hook_while_enabled(once, kind);
    if !once.hooks.enabled(kind) {
        assert(once == host);
        assert(second is None);
        lemma_carries_out_one(once, None);
    }
}

/// Disabling a feature twice in a row leaves the host as disabling it once
/// does: the second call asks for nothing and changes nothing.
pub proof fn lemma_disable_twice(host: Host, kind: HookKind)
    ensures
        host.step(Step::Disable(kind)).step(Step::Disable(kind)) == host.step(Step::Disable(kind)),
        host.step(Step::Disable(kind)).hooks.disable_request(kind) is None,
        !host.step(Step::Disable(kind)).hooks.enabled(kind),
{
    let once = host.step(Step::Disable(kind));
    let cleared = Host { hooks: host.hooks.after_disable(kind), ..host };
    lemma_carries_out_one(cleared, host.hooks.disable_request(kind));
    let again = Host { hooks: once.hooks.after_disable(kind), ..once };
    lemma_carries_out_one(again, once.hooks.disable_request(kind));
}

/// A hook set that starts idle and applies the default policy asks for the
/// mouse hook and nothing else. Once the host has reported the handle, the
/// hot corner is enabled and the left-Windows-key blocker is disabled. If
/// the operating system refuses the hook, the hot corner stays disabled.
pub proof fn lemma_default_policy(outcome: Option<HookHandle>)
    ensures
        HookSet::idle().default_policy_requests() == seq![HookCommand::Register(HookKind::Mouse)],
        HookSet::idle().after_disable(HookKind::Keyboard) == HookSet::idle(),
        ({
            let started = HookSet::idle().after_registration(HookKind::Mouse, outcome);
            &&& started.wf()
            &&& started.hot_corner_enabled == outcome.is_some()
            &&& started.mouse_hook == outcome
            &&& !started.lwin_blocker_enabled
            &&& started.keyboard_hook is None
        }),
        Host::fresh().coherent(),
        Host::fresh().step(Step::Enable(HookKind::Mouse, outcome)).step(
            Step::Disable(HookKind::Keyboard),
        ).hooks == HookSet::idle().after_registration(HookKind::Mouse, outcome),
{
    let first = commands_of(HookSet::idle().enable_request(HookKind::Mouse));
    let second = commands_of(HookSet::idle().disable_request(HookKind::Keyboard));
    assert(first + second =~= seq![HookCommand::Register(HookKind::Mouse)]);
    let host = Host::fresh();
    let enabled = host.step(Step::Enable(HookKind::Mouse, outcome));
    let answered = Host {
        hooks: host.hooks.after_registration(HookKind::Mouse, outcome),
        ..host.os_installs(HookKind::Mouse, outcome)
    };
    lemma_carries_out_one(answered, None);
    let cleared = Host { hooks: enabled.hooks.after_disable(HookKind::Keyboard), ..enabled };
    lemma_carries_out_one(cleared, None);
}

/// An event of the left Windows key is consumed while the blocker is
/// enabled, and passes through once the blocker has been disabled.
pub proof fn lemma_lwin_blocked_while_enabled(hooks: HookSet, event: KeyboardEvent)
    requires
        event.spec_carries_key(VK_LWIN),
    ensures
        hooks.lwin_blocker_enabled ==> keyboard_outcome(hooks, event) == Verdict::Consume,
        keyboard_outcome(hooks.after_disable(HookKind::Keyboard), event) == Verdict::PassThrough,
        !hooks.lwin_blocker_enabled ==> keyboard_outcome(hooks, event) == Verdict::PassThrough,
{
}

/// A hot-corner hit is consumed and answered with the task-view keystrokes
/// while the hot corner is enabled; once it has been disabled the same event
/// passes through and nothing is injected.
pub proof fn lemma_hot_corner_while_enabled(hooks: HookSet, event: MouseEvent)
    requires
        event.spec_is_hot_corner_hit(),
    ensures
        hooks.hot_corner_enabled ==> mouse_outcome(hooks, event) == Verdict::Consume
            && mouse_injection(hooks, event) == task_view_sequence(),
        mouse_outcome(hooks.after_disable(HookKind::Mouse), event) == Verdict::PassThrough,
        mouse_injection(hooks.after_disable(HookKind::Mouse), event) == Seq::<KeyStroke>::empty(),
{
}

} // verus!
