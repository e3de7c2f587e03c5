//! What holds of a shell over more than one step.

use crate::command::{ArgumentsView, CommandKind, CommandRequestView};
use crate::config::AppConfigView;
use crate::effect::{EffectView, OutcomeView, ShellEventView, StepView};
use crate::envelope::{CommandResultView, PayloadView};
use crate::menu::TrayId;
use crate::model::{
    app_entry, app_title, issued, main_id, min_window_size, new_window_size, quit_effect, ShellView,
};
use crate::window::{
    lemma_window_label_injective, lemma_window_label_not_main, window_label, WindowTargetView,
};
use vstd::prelude::*;

verus! {

/// A close request on the main window never ends it. The shell stays well
/// formed, so the main window is live; the number of live windows is what it
/// was, and at least one; the main window is off the screen; nothing asks the
/// process to exit. A second request changes nothing more: the state after
/// two is the state after one, and exactly one live window is the main one.
pub proof fn lemma_main_window_close_is_hide(shell: ShellView, now: int, later: int)
    requires
        shell.well_formed(),
    ensures
        ({
            let event = ShellEventView::WindowCloseRequested { window: main_id() };
            let (once, effects) = shell.routed(event, now);
            let (twice, again) = once.routed(event, later);
            &&& once.well_formed()
            &&& once.registry.has(main_id())
            &&& once.registry.windows.len() == shell.registry.windows.len()
            &&& once.registry.windows.len() >= 1
            &&& !once.registry.state(main_id()).visible
            &&& !effects.contains(quit_effect())
            &&& twice == once
            &&& again == effects
            &&& forall|i: int|
                0 <= i < once.registry.windows.len() && (
                #[trigger] once.registry.windows[i]).handle.id == main_id()
                    ==> i == once.registry.slot(main_id())
        }),
{
    let event = ShellEventView::WindowCloseRequested { window: main_id() };
    let (once, effects) = shell.routed(event, now);
    let (twice, again) = once.routed(event, later);
    shell.lemma_routed_well_formed(event, now);
    shell.registry.lemma_with_visibility(main_id(), false);
    once.registry.lemma_with_visibility(main_id(), false);
    let at = shell.registry.slot(main_id());
    assert(0 <= at < shell.registry.windows.len());
    assert(once.registry.windows[at].handle.id == main_id());
    once.registry.lemma_slot_unique(main_id(), at);
    assert(twice.registry.windows =~= once.registry.windows);
    assert forall|i: int|
        0 <= i < once.registry.windows.len() && (#[trigger] once.registry.windows[i]).handle.id
            == main_id() implies i == once.registry.slot(main_id()) by {
        once.registry.lemma_slot_unique(main_id(), i);
    }
    assert(effects[0] != quit_effect());
    assert(effects[1] != quit_effect());
}

/// The id of a window that is created was never handed out before: it is not
/// the id of the main window, no live window has it, and it differs from the
/// id of every stamp issued so far. Its own stamp is issued from then on.
pub proof fn lemma_created_id_is_fresh(
    shell: ShellView,
    target: WindowTargetView,
    now: int,
    earlier: nat,
)
    requires
        shell.well_formed(),
        shell.new_window(target, now) is Ok,
        earlier < shell.registry.next_serial,
    ensures
        ({
            let id = shell.new_window(target, now)->Ok_0.id;
            &&& id != main_id()
            &&& id != window_label(earlier)
            &&& !shell.registry.has(id)
            &&& !issued(id, shell.registry.next_serial)
            &&& issued(id, shell.window_opened(target, now).registry.next_serial)
        }),
{
    let stamp = shell.registry.stamp_at(now);
    let id = shell.new_window(target, now)->Ok_0.id;
    assert(id == window_label(stamp));
    lemma_window_label_not_main(stamp);
    shell.lemma_unissued_stamp_is_free(stamp);
    if id == window_label(earlier) {
        lemma_window_label_injective(stamp, earlier);
    }
    if issued(id, shell.registry.next_serial) {
        let k = choose|k: nat| k < shell.registry.next_serial && id == #[trigger] window_label(k);
        lemma_window_label_injective(stamp, k);
    }
    assert(stamp < shell.window_opened(target, now).registry.next_serial);
}

/// No event, no command and no outcome of an effect takes back a stamp: the
/// least stamp that was not issued never decreases.
pub proof fn lemma_stamps_are_not_reissued(
    shell: ShellView,
    event: ShellEventView,
    kind: CommandKind,
    arguments: ArgumentsView,
    caller: Seq<char>,
    effect: EffectView,
    outcome: OutcomeView,
    now: int,
)
    requires
        shell.well_formed(),
    ensures
        shell.routed(event, now).0.registry.next_serial >= shell.registry.next_serial,
        shell.performed(kind, arguments, caller, now).0.registry.next_serial
            >= shell.registry.next_serial,
        shell.after_outcome(effect, outcome).registry.next_serial >= shell.registry.next_serial,
{
    shell.registry.lemma_with_visibility(main_id(), true);
    shell.registry.lemma_with_visibility(main_id(), false);
    shell.lemma_opening_well_formed(app_entry(), now);
    shell.registry.lemma_creation(
        app_title(),
        app_entry(),
        new_window_size(),
        min_window_size(),
        now,
    );
    if let Ok(target) = ShellView::requested_target(arguments.url) {
        shell.registry.lemma_creation(
            app_title(),
            target,
            new_window_size(),
            min_window_size(),
            now,
        );
    }
}

/// Two windows that a shell creates, the second in any later state, have
/// different ids.
pub proof fn lemma_created_ids_differ(
    first: ShellView,
    first_target: WindowTargetView,
    first_now: int,
    second: ShellView,
    second_target: WindowTargetView,
    second_now: int,
)
    requires
        first.well_formed(),
        second.well_formed(),
        first.new_window(first_target, first_now) is Ok,
        second.new_window(second_target, second_now) is Ok,
        second.registry.next_serial >= first.window_opened(
            first_target,
            first_now,
        ).registry.next_serial,
    ensures
        first.new_window(first_target, first_now)->Ok_0.id != second.new_window(
            second_target,
            second_now,
        )->Ok_0.id,
{
    let a = first.registry.stamp_at(first_now);
    let b = second.registry.stamp_at(second_now);
    assert(first.new_window(first_target, first_now)->Ok_0.id == window_label(a));
    assert(second.new_window(second_target, second_now)->Ok_0.id == window_label(b));
    assert(a < b);
    if window_label(a) == window_label(b) {
        lemma_window_label_injective(a, b);
    }
}

/// A record that was saved is what `get_app_config` returns next, whether
/// the write that followed the save went well or not.
pub proof fn lemma_saved_config_is_read_back(
    shell: ShellView,
    arguments: ArgumentsView,
    caller: Seq<char>,
    now: int,
    outcome: OutcomeView,
    later_arguments: ArgumentsView,
    later_caller: Seq<char>,
    later: int,
)
    requires
        arguments.config is Some,
    ensures
        ({
            let config: AppConfigView = arguments.config->0;
            let (saved, step) = shell.performed(CommandKind::SaveAppConfig, arguments, caller, now);
            let written = saved.after_outcome(EffectView::PersistConfig { config }, outcome);
            &&& step == StepView::Pending(EffectView::PersistConfig { config })
            &&& written.performed(CommandKind::GetAppConfig, later_arguments, later_caller, later).1
                == StepView::Done(CommandResultView::succeeded(Some(PayloadView::Config(config))))
        }),
{
}

/// Selecting `quit` in the tray menu asks the process to exit with code 0,
/// and for nothing else. Selecting `hide` asks for no exit: the shell stays
/// well formed, with as many live windows as before and the main window
/// among them, off the screen.
pub proof fn lemma_tray_quit_exits_and_hide_does_not(shell: ShellView, now: int)
    requires
        shell.well_formed(),
    ensures
        ({
            let quit = ShellEventView::TrayMenuSelect { id: TrayId::Quit.spec_name() };
            let conceal = ShellEventView::TrayMenuSelect { id: TrayId::Hide.spec_name() };
            let (hidden, effects) = shell.routed(conceal, now);
            &&& shell.routed(quit, now) == (shell, seq![quit_effect()])
            &&& effects == seq![EffectView::HideWindow { window: main_id() }]
            &&& !effects.contains(quit_effect())
            &&& hidden.well_formed()
            &&& hidden.registry.has(main_id())
            &&& hidden.registry.windows.len() == shell.registry.windows.len()
            &&& !hidden.registry.state(main_id()).visible
        }),
{
    TrayId::Quit.lemma_name_round_trip();
    TrayId::Hide.lemma_name_round_trip();
    let conceal = ShellEventView::TrayMenuSelect { id: TrayId::Hide.spec_name() };
    shell.lemma_routed_well_formed(conceal, now);
    shell.registry.lemma_with_visibility(main_id(), false);
    let effects = shell.routed(conceal, now).1;
    assert(effects[0] != quit_effect());
}

/// The clock matters to new windows alone: an event that asks for none leads
/// to the same state and the same effects at every clock reading, and so
/// does every command but `create_new_window`.
pub proof fn lemma_clock_matters_to_new_windows_only(
    shell: ShellView,
    event: ShellEventView,
    kind: CommandKind,
    arguments: ArgumentsView,
    caller: Seq<char>,
    now: int,
    other: int,
)
    ensures
        !event.opens_window() ==> shell.routed(event, now) == shell.routed(event, other),
        kind != CommandKind::CreateNewWindow ==> shell.performed(kind, arguments, caller, now)
            == shell.performed(kind, arguments, caller, other),
{
}

/// One thing that reaches the shell: a request of hosted content, an event
/// of the windowing system, or the outcome of an effect.
pub enum Operation {
    /// A request, the window that asks, and the clock reading at which it is
    /// answered.
    Request { request: CommandRequestView, caller: Seq<char>, now: int },
    /// An event, and the clock reading at which it is routed.
    Event { event: ShellEventView, now: int },
    /// The report of how an effect went.
    Outcome { effect: EffectView, outcome: OutcomeView },
}

/// The state to which one operation leads.
pub open spec fn after_operation(shell: ShellView, operation: Operation) -> ShellView {
    match operation {
        Operation::Request { request, caller, now } => shell.dispatched(request, caller, now).0,
        Operation::Event { event, now } => shell.routed(event, now).0,
        Operation::Outcome { effect, outcome } => shell.after_outcome(effect, outcome),
    }
}

/// The id of the window that one operation creates, if it creates one: a
/// request whose answer waits for a new window, or an event that brings one
/// about.
pub open spec fn window_made(shell: ShellView, operation: Operation) -> Option<Seq<char>> {
    match operation {
        Operation::Request { request, caller, now } => match shell.dispatched(
            request,
            caller,
            now,
        ).1 {
            StepView::Pending(EffectView::OpenWindow { handle }) => Some(handle.id),
            _ => None,
        },
        Operation::Event { event, now } => match shell.opened_by(event, now) {
            Some(handle) => Some(handle.id),
            None => None,
        },
        Operation::Outcome { .. } => None,
    }
}

/// The id of the window that one operation ends, if it ends one: an event
/// that closes a window, or the report that a window could not be brought
/// into being.
pub open spec fn window_ended(shell: ShellView, operation: Operation) -> Option<Seq<char>> {
    match operation {
        Operation::Request { .. } => None,
        Operation::Event { event, .. } => shell.closed_by(event),
        Operation::Outcome { effect, outcome } => shell.forgotten_by(effect, outcome),
    }
}

/// The state after the shell took `operations`, one after the other. What
/// is in flight at once reaches the shell in some order: what holds of every
/// order holds of it.
pub open spec fn after_operations(shell: ShellView, operations: Seq<Operation>) -> ShellView
    decreases operations.len(),
{
    if operations.len() == 0 {
        shell
    } else {
        after_operation(after_operations(shell, operations.drop_last()), operations.last())
    }
}

/// The id of the window that operation number `at` of `operations` created,
/// if it created one.
pub open spec fn window_of(shell: ShellView, operations: Seq<Operation>, at: int) -> Option<
    Seq<char>,
> {
    window_made(after_operations(shell, operations.take(at)), operations[at])
}

/// How many of `operations` created a window.
pub open spec fn windows_made(shell: ShellView, operations: Seq<Operation>) -> nat
    decreases operations.len(),
{
    if operations.len() == 0 {
        0
    } else {
        let before = after_operations(shell, operations.drop_last());
        windows_made(shell, operations.drop_last()) + if window_made(before, operations.last())
            is Some {
            1nat
        } else {
            0nat
        }
    }
}

/// How many of `operations` ended a window.
pub open spec fn windows_ended(shell: ShellView, operations: Seq<Operation>) -> nat
    decreases operations.len(),
{
    if operations.len() == 0 {
        0
    } else {
        let before = after_operations(shell, operations.drop_last());
        windows_ended(shell, operations.drop_last()) + if window_ended(before, operations.last())
            is Some {
            1nat
        } else {
            0nat
        }
    }
}

/// One operation keeps a shell well formed and takes back no stamp. A
/// window that it creates has the id of a stamp that was not issued before
/// and is issued afterwards. The number of live windows goes up by one where
/// it creates a window, down by one where it ends one, and stays otherwise.
pub proof fn lemma_operation_step(shell: ShellView, operation: Operation)
    requires
        shell.well_formed(),
    ensures
        ({
            let next = after_operation(shell, operation);
            &&& next.well_formed()
            &&& next.registry.next_serial >= shell.registry.next_serial
            &&& window_made(shell, operation) matches Some(id) ==> exists|stamp: nat|
                shell.registry.next_serial <= stamp < next.registry.next_serial && id
                    == #[trigger] window_label(stamp)
            &&& next.registry.windows.len() + (if window_ended(shell, operation) is Some {
                1nat
            } else {
                0nat
            }) == shell.registry.windows.len() + (if window_made(shell, operation) is Some {
                1nat
            } else {
                0nat
            })
        }),
{
    match operation {
        Operation::Request { request, caller, now } => {
            shell.lemma_dispatched_step(request, caller, now);
            if window_made(shell, operation) is Some {
                assert(window_made(shell, operation)->0 == window_label(
                    shell.registry.stamp_at(now),
                ));
            }
        },
        Operation::Event { event, now } => {
            shell.lemma_routed_step(event, now);
            if window_made(shell, operation) is Some {
                assert(window_made(shell, operation)->0 == window_label(
                    shell.registry.stamp_at(now),
                ));
            }
        },
        Operation::Outcome { effect, outcome } => {
            shell.lemma_outcome_step(effect, outcome);
        },
    }
}

/// However many operations a shell takes, in whatever order, it stays well
/// formed and takes back no stamp, and its live windows are those it had,
/// plus one for each operation that created a window, less one for each
/// that ended one: making an id and registering its window is one step.
pub proof fn lemma_operations_account_for_windows(shell: ShellView, operations: Seq<Operation>)
    requires
        shell.well_formed(),
    ensures
        after_operations(shell, operations).well_formed(),
        after_operations(shell, operations).registry.next_serial >= shell.registry.next_serial,
        after_operations(shell, operations).registry.windows.len() + windows_ended(
            shell,
            operations,
        ) == shell.registry.windows.len() + windows_made(shell, operations),
    decreases operations.len(),
{
    if operations.len() > 0 {
        lemma_operations_account_for_windows(shell, operations.drop_last());
        lemma_operation_step(
            after_operations(shell, operations.drop_last()),
            operations.last(),
        );
    }
}

/// Along a run of operations the least stamp that was not issued only grows.
pub proof fn lemma_stamps_grow_along_operations(
    shell: ShellView,
    operations: Seq<Operation>,
    early: int,
    late: int,
)
    requires
        shell.well_formed(),
        0 <= early <= late <= operations.len(),
    ensures
        after_operations(shell, operations.take(early)).well_formed(),
        after_operations(shell, operations.take(late)).well_formed(),
        shell.registry.next_serial <= after_operations(
            shell,
            operations.take(early),
        ).registry.next_serial,
        after_operations(shell, operations.take(early)).registry.next_serial <= after_operations(
            shell,
            operations.take(late),
        ).registry.next_serial,
    decreases late - early,
{
    lemma_operations_account_for_windows(shell, operations.take(early));
    lemma_operations_account_for_windows(shell, operations.take(late));
    if early < late {
        lemma_stamps_grow_along_operations(shell, operations, early, late - 1);
        assert(operations.take(late).drop_last() =~= operations.take(late - 1));
        assert(operations.take(late).last() == operations[late - 1]);
        lemma_operation_step(
            after_operations(shell, operations.take(late - 1)),
            operations[late - 1],
        );
    }
}

/// The id of a stamp that was not issued yet was not handed out: it is not
/// the id of the main window, nor of an earlier stamp, nor of a live window.
pub proof fn lemma_never_issued(shell: ShellView, stamp: nat)
    requires
        shell.well_formed(),
        stamp >= shell.registry.next_serial,
    ensures
        window_label(stamp) != main_id(),
        !issued(window_label(stamp), shell.registry.next_serial),
        !shell.registry.has(window_label(stamp)),
{
    lemma_window_label_not_main(stamp);
    shell.lemma_unissued_stamp_is_free(stamp);
    if issued(window_label(stamp), shell.registry.next_serial) {
        let k = choose|k: nat|
            k < shell.registry.next_serial && window_label(stamp) == #[trigger] window_label(k);
        lemma_window_label_injective(stamp, k);
    }
}

/// Of any number of operations that a shell takes, in whatever order and
/// with whatever else between them, no two create windows with the same id,
/// and no created id was handed out before the first operation: it is not
/// the id of the main window, no window that was live had it, and it is the
/// id of no stamp issued until then.
pub proof fn lemma_windows_of_operations_differ(
    shell: ShellView,
    operations: Seq<Operation>,
    first: int,
    second: int,
)
    requires
        shell.well_formed(),
        0 <= first < second < operations.len(),
        window_of(shell, operations, first) is Some,
        window_of(shell, operations, second) is Some,
    ensures
        window_of(shell, operations, first)->0 != window_of(shell, operations, second)->0,
        window_of(shell, operations, first)->0 != main_id(),
        window_of(shell, operations, second)->0 != main_id(),
        !issued(window_of(shell, operations, first)->0, shell.registry.next_serial),
        !issued(window_of(shell, operations, second)->0, shell.registry.next_serial),
        !shell.registry.has(window_of(shell, operations, first)->0),
        !shell.registry.has(window_of(shell, operations, second)->0),
{
    let before_first = after_operations(shell, operations.take(first));
    let after_first = after_operations(shell, operations.take(first + 1));
    let before_second = after_operations(shell, operations.take(second));
    let after_second = after_operation(before_second, operations[second]);
    lemma_stamps_grow_along_operations(shell, operations, first, first + 1);
    lemma_stamps_grow_along_operations(shell, operations, first + 1, second);
    assert(operations.take(first + 1).drop_last() =~= operations.take(first));
    assert(operations.take(first + 1).last() == operations[first]);
    lemma_operation_step(before_first, operations[first]);
    lemma_operation_step(before_second, operations[second]);
    let a = window_of(shell, operations, first)->0;
    let b = window_of(shell, operations, second)->0;
    let stamp_a = choose|stamp: nat|
        before_first.registry.next_serial <= stamp < after_first.registry.next_serial && a
            == #[trigger] window_label(stamp);
    let stamp_b = choose|stamp: nat|
        before_second.registry.next_serial <= stamp < after_second.registry.next_serial && b
            == #[trigger] window_label(stamp);
    assert(shell.registry.next_serial <= stamp_a < stamp_b);
    lemma_never_issued(shell, stamp_a);
    lemma_never_issued(shell, stamp_b);
    if a == b {
        lemma_window_label_injective(stamp_a, stamp_b);
    }
}

/// Where every one of `operations` is a request that created a window, the
/// shell has as many more live windows as there were requests.
pub proof fn lemma_requests_that_all_create(shell: ShellView, operations: Seq<Operation>)
    requires
        shell.well_formed(),
        forall|at: int|
            0 <= at < operations.len() ==> (#[trigger] operations[at]) is Request && window_of(
                shell,
                operations,
                at,
            ) is Some,
    ensures
        after_operations(shell, operations).registry.windows.len() == shell.registry.windows.len()
            + operations.len(),
    decreases operations.len(),
{
    lemma_operations_account_for_windows(shell, operations);
    lemma_requests_create_and_end_none(shell, operations);
}

/// Where every one of `operations` is a request that created a window, each
/// counts as made and none as ended.
pub proof fn lemma_requests_create_and_end_none(shell: ShellView, operations: Seq<Operation>)
    requires
        shell.well_formed(),
        forall|at: int|
            0 <= at < operations.len() ==> (#[trigger] operations[at]) is Request && window_of(
                shell,
                operations,
                at,
            ) is Some,
    ensures
        windows_made(shell, operations) == operations.len(),
        windows_ended(shell, operations) == 0,
    decreases operations.len(),
{
    if operations.len() > 0 {
        let earlier = operations.drop_last();
        let last = operations.len() - 1;
        assert forall|at: int| 0 <= at < earlier.len() implies (#[trigger] earlier[at])
            is Request && window_of(shell, earlier, at) is Some by {
            assert(earlier.take(at) =~= operations.take(at));
            assert(earlier[at] == operations[at]);
            assert(window_of(shell, operations, at) is Some);
        }
        lemma_requests_create_and_end_none(shell, earlier);
        assert(operations.take(last) =~= earlier);
        assert(operations[last] is Request);
        assert(window_of(shell, operations, last) is Some);
    }
}

} // verus!
