//! Laws over whole runs of the installer: a list made by `new`, then any
//! number of steps, each the one that `process_next_action` chooses, with
//! whatever the lookup and the installations return.

use crate::code::InstallExtError;
use crate::extensions::extension::{
    action_step, after_install, all_finished, count_finished, fresh_list, install_step,
    is_first_pending, law_finished_iff_complete, law_install_step_advances,
    law_progress_at_most_total, Extension, InstallerView, ListView, StateView,
};
use crate::extensions::gui::{keeps_working, report, MessageView};
use crate::path::PathView;
use vstd::prelude::*;

verus! {

/// The list after `n` steps from `l`; step `j` is given the lookup result
/// `lookups[j]` and the installation outcome `outcomes[j]`, and uses the one
/// that its action needs.
pub open spec fn run_steps(
    l: ListView,
    lookups: Seq<Result<Seq<Seq<char>>, Seq<char>>>,
    outcomes: Seq<Result<(), InstallExtError>>,
    n: nat,
) -> ListView
    decreases n,
{
    if n == 0 {
        l
    } else {
        action_step(run_steps(l, lookups, outcomes, (n - 1) as nat), lookups[n - 1], outcomes[n - 1])
    }
}

/// What holds of a list made from `extensions` and `vscode_exe` at every
/// point of a run.
pub open spec fn run_invariant(l: ListView, extensions: Seq<Extension>, vscode_exe: PathView) -> bool {
    &&& l.vscode_exe == vscode_exe
    &&& l.installers.len() == extensions.len()
    &&& forall|i: int|
        0 <= i < extensions.len() ==> (#[trigger] l.installers[i]).identifier
            == extensions[i].identifier@ && l.installers[i].post_install
            == extensions[i].post_install
    &&& !l.initialized ==> forall|i: int|
        0 <= i < l.installers.len() ==> #[trigger] l.installers[i].state == StateView::Unknown
    &&& l.initialized ==> forall|i: int|
        0 <= i < l.installers.len() ==> !(#[trigger] l.installers[i].state is Unknown)
}

/// There is a first pending extension when not all are finished.
proof fn lemma_first_pending_exists(s: Seq<InstallerView>, j: int)
    requires
        0 <= j < s.len(),
        !s[j].state.finished(),
    ensures
        exists|i: int| is_first_pending(s, i),
    decreases j,
{
    if forall|k: int| 0 <= k < j ==> #[trigger] s[k].state.finished() {
        assert(is_first_pending(s, j));
    } else {
        let k = choose|k: int| 0 <= k < j && !(#[trigger] s[k].state.finished());
        lemma_first_pending_exists(s, k);
    }
}

/// The first pending extension is the only one.
proof fn lemma_first_pending_unique(s: Seq<InstallerView>, i: int, j: int)
    requires
        is_first_pending(s, i),
        is_first_pending(s, j),
    ensures
        i == j,
{
    if i < j {
        assert(s[i].state.finished());
    } else if j < i {
        assert(s[j].state.finished());
    }
}

/// An installation step on a list with pending extensions is the step on the
/// first of them.
proof fn lemma_install_step_at(l: ListView, i: int, outcome: Result<(), InstallExtError>)
    requires
        is_first_pending(l.installers, i),
    ensures
        install_step(l, outcome) == (ListView {
            installers: after_install(l.installers, i, outcome),
            ..l
        }),
{
    let c = choose|k: int| is_first_pending(l.installers, k);
    lemma_first_pending_unique(l.installers, c, i);
}

proof fn lemma_step_keeps_invariant(
    l: ListView,
    extensions: Seq<Extension>,
    vscode_exe: PathView,
    installed: Result<Seq<Seq<char>>, Seq<char>>,
    outcome: Result<(), InstallExtError>,
)
    requires
        run_invariant(l, extensions, vscode_exe),
    ensures
        run_invariant(action_step(l, installed, outcome), extensions, vscode_exe),
        l.initialized ==> action_step(l, installed, outcome).initialized,
        action_step(l, installed, outcome).installers.len() == l.installers.len(),
        forall|i: int|
            0 <= i < l.installers.len() && #[trigger] l.installers[i].state.finished()
                ==> action_step(l, installed, outcome).installers[i] == l.installers[i],
        action_step(l, installed, outcome).abort_message is Some ==> (l.abort_message is Some || (
        !l.initialized && installed is Err)),
{
    let next = action_step(l, installed, outcome);
    if !l.initialized {
        assert forall|i: int| 0 <= i < l.installers.len() implies !(
        #[trigger] l.installers[i].state.finished()) by {
            assert(l.installers[i].state == StateView::Unknown);
        }
    } else {
        if exists|i: int| is_first_pending(l.installers, i) {
            let i = choose|i: int| is_first_pending(l.installers, i);
            law_install_step_advances(l.installers, i, outcome);
            lemma_install_step_at(l, i, outcome);
            assert forall|k: int| 0 <= k < extensions.len() implies (
            #[trigger] next.installers[k]).identifier == extensions[k].identifier@
                && next.installers[k].post_install == extensions[k].post_install by {
                assert(l.installers[k].identifier == extensions[k].identifier@);
            }
            assert forall|k: int| 0 <= k < next.installers.len() implies !(
            #[trigger] next.installers[k].state is Unknown) by {
                if k != i {
                    assert(!(l.installers[k].state is Unknown));
                }
            }
        }
    }
}

/// Over a run from a list that `new` made, whatever the lookups and the
/// installations return: the extensions and VS Code's path stay as given,
/// the progress never exceeds the number of extensions, no state is known
/// before the lookup and every state is known after it, and the
/// installation is given up only after a lookup that failed.
pub proof fn law_run_keeps_shape(
    extensions: Seq<Extension>,
    vscode_exe: PathView,
    lookups: Seq<Result<Seq<Seq<char>>, Seq<char>>>,
    outcomes: Seq<Result<(), InstallExtError>>,
    n: nat,
)
    ensures
        run_invariant(
            run_steps(fresh_list(extensions, vscode_exe), lookups, outcomes, n),
            extensions,
            vscode_exe,
        ),
        count_finished(run_steps(fresh_list(extensions, vscode_exe), lookups, outcomes, n).installers)
            <= extensions.len(),
        run_steps(fresh_list(extensions, vscode_exe), lookups, outcomes, n).abort_message is Some
            ==> exists|j: int|
            0 <= j < n && !run_steps(
                fresh_list(extensions, vscode_exe),
                lookups,
                outcomes,
                j as nat,
            ).initialized && #[trigger] lookups[j] is Err,
    decreases n,
{
    let l0 = fresh_list(extensions, vscode_exe);
    let ln = run_steps(l0, lookups, outcomes, n);
    if n > 0 {
        let m = (n - 1) as nat;
        law_run_keeps_shape(extensions, vscode_exe, lookups, outcomes, m);
        let lm = run_steps(l0, lookups, outcomes, m);
        lemma_step_keeps_invariant(lm, extensions, vscode_exe, lookups[m as int], outcomes[m as int]);
        if ln.abort_message is Some && lm.abort_message is None {
            assert(!lm.initialized && lookups[m as int] is Err);
        }
    }
    law_progress_at_most_total(ln.installers);
}

/// Over a run from a list that `new` made: once the lookup has succeeded
/// the list stays initialized, and a finished extension never changes
/// again.
pub proof fn law_run_never_undoes(
    extensions: Seq<Extension>,
    vscode_exe: PathView,
    lookups: Seq<Result<Seq<Seq<char>>, Seq<char>>>,
    outcomes: Seq<Result<(), InstallExtError>>,
    j: nat,
    m: nat,
)
    requires
        j <= m,
    ensures
        run_steps(fresh_list(extensions, vscode_exe), lookups, outcomes, j).initialized
            ==> run_steps(fresh_list(extensions, vscode_exe), lookups, outcomes, m).initialized,
        forall|i: int|
            0 <= i < extensions.len() && (#[trigger] run_steps(
                fresh_list(extensions, vscode_exe),
                lookups,
                outcomes,
                j,
            ).installers[i]).state.finished() ==> run_steps(
                fresh_list(extensions, vscode_exe),
                lookups,
                outcomes,
                m,
            ).installers[i] == run_steps(fresh_list(extensions, vscode_exe), lookups, outcomes, j).installers[i],
    decreases m - j,
{
    if j < m {
        let l0 = fresh_list(extensions, vscode_exe);
        let k = (m - 1) as nat;
        law_run_never_undoes(extensions, vscode_exe, lookups, outcomes, j, k);
        law_run_keeps_shape(extensions, vscode_exe, lookups, outcomes, k);
        let lk = run_steps(l0, lookups, outcomes, k);
        let lj = run_steps(l0, lookups, outcomes, j);
        lemma_step_keeps_invariant(lk, extensions, vscode_exe, lookups[k as int], outcomes[k as int]);
        assert forall|i: int|
            0 <= i < extensions.len() && (#[trigger] lj.installers[i]).state.finished()
                implies run_steps(l0, lookups, outcomes, m).installers[i] == lj.installers[i] by {
            assert(lk.installers[i] == lj.installers[i]);
            assert(lk.installers[i].state.finished());
        }
    }
}

/// From an initialized list with `k` pending extensions, every further step
/// finishes one more extension, whatever the installations return, so after
/// `k` steps every extension is finished.
pub proof fn law_run_finishes(
    l: ListView,
    lookups: Seq<Result<Seq<Seq<char>>, Seq<char>>>,
    outcomes: Seq<Result<(), InstallExtError>>,
    k: nat,
)
    requires
        l.initialized,
        k == l.installers.len() - count_finished(l.installers),
    ensures
        all_finished(run_steps(l, lookups, outcomes, k).installers),
        forall|m: nat|
            m <= k ==> #[trigger] count_finished(run_steps(l, lookups, outcomes, m).installers)
                == count_finished(l.installers) + m,
{
    assert forall|m: nat| m <= k implies #[trigger] count_finished(
        run_steps(l, lookups, outcomes, m).installers,
    ) == count_finished(l.installers) + m by {
        lemma_run_progress(l, lookups, outcomes, k, m);
    }
    lemma_run_progress(l, lookups, outcomes, k, k);
    law_finished_iff_complete(run_steps(l, lookups, outcomes, k).installers);
}

proof fn lemma_run_progress(
    l: ListView,
    lookups: Seq<Result<Seq<Seq<char>>, Seq<char>>>,
    outcomes: Seq<Result<(), InstallExtError>>,
    k: nat,
    m: nat,
)
    requires
        l.initialized,
        k == l.installers.len() - count_finished(l.installers),
        m <= k,
    ensures
        run_steps(l, lookups, outcomes, m).initialized,
        run_steps(l, lookups, outcomes, m).installers.len() == l.installers.len(),
        count_finished(run_steps(l, lookups, outcomes, m).installers) == count_finished(
            l.installers,
        ) + m,
    decreases m,
{
    if m > 0 {
        let p = (m - 1) as nat;
        lemma_run_progress(l, lookups, outcomes, k, p);
        let lp = run_steps(l, lookups, outcomes, p);
        law_finished_iff_complete(lp.installers);
        law_progress_at_most_total(lp.installers);
        let j = choose|j: int| 0 <= j < lp.installers.len() && !(#[trigger] lp.installers[j].state.finished());
        lemma_first_pending_exists(lp.installers, j);
        let i = choose|i: int| is_first_pending(lp.installers, i);
        lemma_install_step_at(lp, i, outcomes[p as int]);
        law_install_step_advances(lp.installers, i, outcomes[p as int]);
    }
}

/// How many more steps the worker can take at most from `l`: the lookup
/// and one step per extension before the lookup, one step per pending
/// extension after it.
pub open spec fn work_left(l: ListView) -> nat {
    if l.initialized {
        (l.installers.len() - count_finished(l.installers)) as nat
    } else {
        l.installers.len() + 1
    }
}

/// A step after which the worker goes on leaves less work.
pub proof fn lemma_work_left_decreases(
    l: ListView,
    installed: Result<Seq<Seq<char>>, Seq<char>>,
    outcome: Result<(), InstallExtError>,
)
    ensures
        keeps_working(action_step(l, installed, outcome)) ==> work_left(
            action_step(l, installed, outcome),
        ) < work_left(l),
{
    let next = action_step(l, installed, outcome);
    law_progress_at_most_total(l.installers);
    law_progress_at_most_total(next.installers);
    if l.initialized {
        if exists|i: int| is_first_pending(l.installers, i) {
            let i = choose|i: int| is_first_pending(l.installers, i);
            lemma_install_step_at(l, i, outcome);
            law_install_step_advances(l.installers, i, outcome);
        } else if keeps_working(next) {
            let j = choose|j: int| 0 <= j < l.installers.len() && !(#[trigger] l.installers[j].state.finished());
            lemma_first_pending_exists(l.installers, j);
        }
    }
}

/// The reports that the worker sends from the list `l` on, step `j` being
/// given `lookups[j]` and `outcomes[j]`: after each step the report on the
/// list, until a step after which the worker stops.
pub open spec fn worker_loop(
    l: ListView,
    lookups: Seq<Result<Seq<Seq<char>>, Seq<char>>>,
    outcomes: Seq<Result<(), InstallExtError>>,
    extension_count: nat,
    j: nat,
) -> Seq<MessageView>
    decreases work_left(l),
{
    let next = action_step(l, lookups[j as int], outcomes[j as int]);
    if keeps_working(next) {
        proof {
            lemma_work_left_decreases(l, lookups[j as int], outcomes[j as int]);
        }
        seq![report(next, extension_count)] + worker_loop(
            next,
            lookups,
            outcomes,
            extension_count,
            j + 1,
        )
    } else {
        seq![report(next, extension_count)]
    }
}

/// Every message that the worker sends for the list `l`: the reports of its
/// steps, none when every extension is finished from the start, and then
/// `Finished`.
pub open spec fn worker_run(
    l: ListView,
    lookups: Seq<Result<Seq<Seq<char>>, Seq<char>>>,
    outcomes: Seq<Result<(), InstallExtError>>,
    extension_count: nat,
) -> Seq<MessageView> {
    (if all_finished(l.installers) {
        seq![]
    } else {
        worker_loop(l, lookups, outcomes, extension_count, 0)
    }) + seq![MessageView::Finished]
}

proof fn lemma_worker_loop(
    l: ListView,
    extensions: Seq<Extension>,
    vscode_exe: PathView,
    lookups: Seq<Result<Seq<Seq<char>>, Seq<char>>>,
    outcomes: Seq<Result<(), InstallExtError>>,
    j: nat,
)
    requires
        run_invariant(l, extensions, vscode_exe),
        extensions.len() <= u32::MAX,
        !l.initialized || !all_finished(l.installers),
    ensures
        ({
            let ms = worker_loop(l, lookups, outcomes, extensions.len(), j);
            &&& 1 <= ms.len() <= work_left(l)
            &&& forall|i: int| 0 <= i < ms.len() ==> !(#[trigger] ms[i] is Finished)
            &&& forall|i: int| 0 <= i < ms.len() - 1 ==> #[trigger] ms[i] is UiUpdate
            &&& forall|i: int|
                0 <= i < ms.len() ==> (#[trigger] ms[i] matches MessageView::UiUpdate {
                    progress,
                    progress_total,
                    ..
                } ==> progress_total == extensions.len() && progress <= progress_total)
        }),
    decreases work_left(l),
{
    let n = extensions.len();
    let next = action_step(l, lookups[j as int], outcomes[j as int]);
    lemma_step_keeps_invariant(l, extensions, vscode_exe, lookups[j as int], outcomes[j as int]);
    lemma_work_left_decreases(l, lookups[j as int], outcomes[j as int]);
    law_progress_at_most_total(next.installers);
    law_progress_at_most_total(l.installers);
    law_finished_iff_complete(l.installers);
    let m = report(next, n);
    assert(m matches MessageView::UiUpdate { progress, progress_total, .. } ==> progress_total
        == n && progress <= progress_total);
    let ms = worker_loop(l, lookups, outcomes, n, j);
    if keeps_working(next) {
        lemma_worker_loop(next, extensions, vscode_exe, lookups, outcomes, j + 1);
        let rest = worker_loop(next, lookups, outcomes, n, j + 1);
        assert(ms == seq![m] + rest);
        assert forall|i: int| 0 <= i < ms.len() implies !(#[trigger] ms[i] is Finished) by {
            if i > 0 {
                assert(ms[i] == rest[i - 1]);
            }
        }
        assert forall|i: int| 0 <= i < ms.len() - 1 implies #[trigger] ms[i] is UiUpdate by {
            if i > 0 {
                assert(ms[i] == rest[i - 1]);
            }
        }
        assert forall|i: int|
            0 <= i < ms.len() implies (#[trigger] ms[i] matches MessageView::UiUpdate {
                progress,
                progress_total,
                ..
            } ==> progress_total == n && progress <= progress_total) by {
            if i > 0 {
                assert(ms[i] == rest[i - 1]);
            }
        }
    } else {
        assert(ms == seq![m]);
    }
}

/// The messages of a whole worker run from a list that `new` made,
/// whatever the lookups and installations return: the worker sends at most
/// one report more than there are extensions, each progress report counts
/// out of the number of extensions and never past it, a report that the
/// installation was given up comes last of all reports, and `Finished` comes
/// last and only last.  With no extensions, `Finished` is all it sends.
pub proof fn law_worker_run_messages(
    extensions: Seq<Extension>,
    vscode_exe: PathView,
    lookups: Seq<Result<Seq<Seq<char>>, Seq<char>>>,
    outcomes: Seq<Result<(), InstallExtError>>,
)
    requires
        extensions.len() <= u32::MAX,
    ensures
        ({
            let ms = worker_run(fresh_list(extensions, vscode_exe), lookups, outcomes, extensions.len());
            &&& 1 <= ms.len() <= extensions.len() + 2
            &&& ms.last() is Finished
            &&& forall|i: int| 0 <= i < ms.len() - 1 ==> !(#[trigger] ms[i] is Finished)
            &&& forall|i: int|
                0 <= i < ms.len() ==> (#[trigger] ms[i] matches MessageView::UiUpdate {
                    progress,
                    progress_total,
                    ..
                } ==> progress_total == extensions.len() && progress <= progress_total)
            &&& forall|i: int| 0 <= i < ms.len() && (#[trigger] ms[i] is Abort) ==> i == ms.len() - 2
            &&& extensions.len() == 0 ==> ms == seq![MessageView::Finished]
        }),
{
    let l0 = fresh_list(extensions, vscode_exe);
    let n = extensions.len();
    assert(run_invariant(l0, extensions, vscode_exe));
    let ms = worker_run(l0, lookups, outcomes, n);
    if all_finished(l0.installers) {
        if n > 0 {
            assert(l0.installers[0].state.finished());
        }
        assert(ms == seq![MessageView::Finished]);
    } else {
        lemma_worker_loop(l0, extensions, vscode_exe, lookups, outcomes, 0);
        let lm = worker_loop(l0, lookups, outcomes, n, 0);
        assert(ms == lm + seq![MessageView::Finished]);
        assert forall|i: int| 0 <= i < ms.len() - 1 implies !(#[trigger] ms[i] is Finished) by {
            assert(ms[i] == lm[i]);
        }
        assert forall|i: int|
            0 <= i < ms.len() implies (#[trigger] ms[i] matches MessageView::UiUpdate {
                progress,
                progress_total,
                ..
            } ==> progress_total == n && progress <= progress_total) by {
            if i < lm.len() {
                assert(ms[i] == lm[i]);
            }
        }
        assert forall|i: int| 0 <= i < ms.len() && (#[trigger] ms[i] is Abort) implies i == ms.len()
            - 2 by {
            if i < lm.len() {
                assert(ms[i] == lm[i]);
                if i < lm.len() - 1 {
                    assert(lm[i] is UiUpdate);
                }
            }
        }
    }
}

} // verus!
