//! What holds of the state machine as a whole, over its model.

use crate::action::ActionModel;
use crate::effect::EffectModel;
use crate::effects::{honored, is_listed, probe_options};
use crate::engine::{
    AddResponseModel, DetailsModel, ReplyModel, RequestModel, SourceModel,
};
use crate::error::Failure;
use crate::flow::{FlowModel, OutcomeModel, SuspendedModel, WaitModel};
use crate::input::{is_navigation_char, EventModel, KeyCode, KeyEvent, KeyEventKind};
use crate::model::{AppModel, PASTE_GAP_MS};
use crate::modes::{Dialog, Mode};
use crate::reducer::{drained, handled, lemma_drained_unfolds, resumed, Drained};
use crate::rows::{lemma_all_included, FileModel, PickerModel, SessionStats};
use crate::text::{is_plain, lemma_plain_text_is_clean, lemma_plain_text_is_trimmed, trimmed};
use crate::util::{add_input, alternate_name, is_url, joined_path, AddInputModel};
use vstd::prelude::*;

verus! {

/// The filter invariant holds after every operation that changes the rows
/// or the filter: the selected row passes the active filter, or no row
/// passes it and the selection is 0.
pub proof fn lemma_filter_invariant_is_restored(
    state: AppModel,
    index: usize,
    delta: isize,
    stats: SessionStats,
    list: Seq<DetailsModel>,
)
    requires
        state.torrents.len() <= usize::MAX,
        list.len() <= usize::MAX,
    ensures
        state.selection_settled().selection_fits(),
        state.filter_set(index).selection_fits(),
        state.filter_moved(delta).selection_fits(),
        state.refreshed(stats, list).selection_fits(),
{
    state.lemma_settled_selection_fits();
    AppModel {
        filter_index: if index < crate::modes::FILTER_COUNT {
            index
        } else {
            (crate::modes::FILTER_COUNT - 1) as usize
        },
        ..state
    }.lemma_settled_selection_fits();
    AppModel {
        filter_index: crate::reducer::clamp(
            state.filter_index + delta,
            0,
            crate::modes::FILTER_COUNT - 1,
        ) as usize,
        ..state
    }.lemma_settled_selection_fits();
    crate::effects::lemma_rows_upto_len(list, list.len());
    state.lemma_refreshed_fits(stats, list);
}

/// Moving the selection keeps the filter invariant.
pub proof fn lemma_filter_invariant_is_kept_by_moves(state: AppModel, delta: int)
    requires
        state.torrents.len() <= usize::MAX,
        state.selection_fits(),
    ensures
        state.selection_moved(delta).selection_fits(),
{
    let flags = crate::rows::pass_flags(state.torrents, state.filter());
    crate::indices::lemma_marked_upto(flags, flags.len());
    let shown = crate::rows::filtered(state.torrents, state.filter());
    if shown.len() > 0 {
        let moved = state.selection_moved(delta);
        let k = choose|k: int| 0 <= k < shown.len() && shown[k] == moved.selected;
        assert(flags[shown[k] as int]);
    }
}

/// The rows fit into a vector, and the filter invariant holds.
pub open spec fn selection_kept(state: AppModel) -> bool {
    state.torrents.len() <= usize::MAX && state.selection_fits()
}

/// Whether two states have the same rows, selection and filter.
pub open spec fn same_selection(before: AppModel, after: AppModel) -> bool {
    &&& after.torrents == before.torrents
    &&& after.selected == before.selected
    &&& after.filter_index == before.filter_index
}

/// The filter invariant speaks of rows, selection and filter only.
pub proof fn lemma_filter_invariant_reads_selection(before: AppModel, after: AppModel)
    requires
        same_selection(before, after),
        selection_kept(before),
    ensures
        selection_kept(after),
{
}

/// An action that moves neither the selection nor the filter leaves the rows
/// as they are.
proof fn lemma_other_actions_leave_rows(state: AppModel, action: ActionModel, now: u64)
    requires
        !(action is MoveSelection || action is MoveFilter || action is SetFilter),
    ensures
        state.applied(action, now).state.torrents == state.torrents,
{
    reveal(AppModel::applied);
}

/// An action that moves neither the selection nor the filter leaves the
/// selection as it is.
proof fn lemma_other_actions_leave_selected(state: AppModel, action: ActionModel, now: u64)
    requires
        !(action is MoveSelection || action is MoveFilter || action is SetFilter),
    ensures
        state.applied(action, now).state.selected == state.selected,
{
    reveal(AppModel::applied);
}

/// An action that moves neither the selection nor the filter leaves the
/// filter as it is.
proof fn lemma_other_actions_leave_filter(state: AppModel, action: ActionModel, now: u64)
    requires
        !(action is MoveSelection || action is MoveFilter || action is SetFilter),
    ensures
        state.applied(action, now).state.filter_index == state.filter_index,
{
    reveal(AppModel::applied);
}

/// Only the actions that move the selection or the filter change rows,
/// selection or filter.
pub proof fn lemma_other_actions_leave_selection(state: AppModel, action: ActionModel, now: u64)
    requires
        !(action is MoveSelection || action is MoveFilter || action is SetFilter),
    ensures
        same_selection(state, state.applied(action, now).state),
{
    lemma_other_actions_leave_rows(state, action, now);
    lemma_other_actions_leave_selected(state, action, now);
    lemma_other_actions_leave_filter(state, action, now);
}

/// No action breaks the filter invariant.
pub proof fn lemma_action_keeps_filter_invariant(state: AppModel, action: ActionModel, now: u64)
    requires
        selection_kept(state),
    ensures
        selection_kept(state.applied(action, now).state),
{
    match action {
        ActionModel::MoveSelection(delta) => {
            assert(state.applied(action, now).state == state.selection_moved(delta as int)) by {
                reveal(AppModel::applied);
            }
            lemma_filter_invariant_is_kept_by_moves(state, delta as int);
        },
        ActionModel::MoveFilter(delta) => {
            assert(state.applied(action, now).state == state.filter_moved(delta)) by {
                reveal(AppModel::applied);
            }
            lemma_filter_invariant_is_restored(
                state,
                0,
                delta,
                arbitrary(),
                Seq::<DetailsModel>::empty(),
            );
        },
        ActionModel::SetFilter(index) => {
            assert(state.applied(action, now).state == state.filter_set(index)) by {
                reveal(AppModel::applied);
            }
            lemma_filter_invariant_is_restored(
                state,
                index,
                0,
                arbitrary(),
                Seq::<DetailsModel>::empty(),
            );
        },
        _ => {
            lemma_other_actions_leave_selection(state, action, now);
            lemma_filter_invariant_reads_selection(state, state.applied(action, now).state);
        },
    }
}

/// No reply breaks the filter invariant.
pub proof fn lemma_reply_keeps_filter_invariant(
    state: AppModel,
    wait: WaitModel,
    reply: ReplyModel,
)
    requires
        selection_kept(state),
        reply matches ReplyModel::Listing(list) ==> list.len() <= usize::MAX,
    ensures
        selection_kept(state.replied(wait, reply).state),
{
    match (wait, reply) {
        (WaitModel::RefreshList { stats }, ReplyModel::Listing(list)) => {
            lemma_filter_invariant_is_restored(state, 0, 0, stats, list);
            crate::effects::lemma_rows_upto_len(list, list.len());
        },
        _ => {},
    }
}

/// Draining a queue keeps the filter invariant.
pub proof fn lemma_drain_keeps_filter_invariant(
    state: AppModel,
    queue: Seq<ActionModel>,
    now: u64,
)
    requires
        selection_kept(state),
    ensures
        selection_kept(drained(state, queue, now).state),
    decreases crate::action::total_rank(queue),
{
    if queue.len() > 0 {
        let step = state.applied(queue[0], now);
        let rest = step.queue_after(queue.drop_first());
        lemma_action_keeps_filter_invariant(state, queue[0], now);
        lemma_drained_unfolds(state, queue, now);
        if step.flow is Continue {
            state.lemma_applied_rank(queue[0], now);
            if step.pushed is Some {
                crate::action::lemma_total_rank_push(queue.drop_first(), step.pushed->0);
            }
            lemma_drain_keeps_filter_invariant(step.state, rest, now);
        }
    }
}

/// Handling an input event keeps the filter invariant, and so does going
/// on with a reply.
pub proof fn lemma_runs_keep_filter_invariant(
    state: AppModel,
    event: EventModel,
    suspended: SuspendedModel,
    reply: ReplyModel,
    now: u64,
)
    requires
        selection_kept(state),
        reply matches ReplyModel::Listing(list) ==> list.len() <= usize::MAX,
    ensures
        selection_kept(crate::reducer::handled(state, event, now).state),
        selection_kept(resumed(state, suspended, reply).state),
{
    let translated = state.translated(event, now);
    lemma_drain_keeps_filter_invariant(translated.state, translated.actions, now);
    let step = state.replied(suspended.wait, reply);
    lemma_reply_keeps_filter_invariant(state, suspended.wait, reply);
    if step.flow is Continue {
        lemma_drain_keeps_filter_invariant(
            step.state,
            step.queue_after(suspended.queue),
            suspended.now,
        );
    }
}

/// The paste check in normal mode, with no dialog open: of two character
/// keys that are no navigation letters, the first is taken where no
/// character key came before it, and the second is dropped if and only if it
/// arrives at most `PASTE_GAP_MS` after the first.
pub proof fn lemma_paste_gap(state: AppModel, first: char, second: char, t1: u64, t2: u64)
    requires
        state.mode == Mode::Normal,
        state.dialog == Dialog::Closed,
        state.last_char_at is None,
        !is_navigation_char(first),
        !is_navigation_char(second),
    ensures
        ({
            let (after_first, first_dropped) = state.debounced(KeyCode::Char(first), t1);
            let (after_second, second_dropped) = after_first.debounced(KeyCode::Char(second), t2);
            &&& !first_dropped
            &&& after_first.last_char_at == Some(t1)
            &&& second_dropped <==> t2 - t1 <= PASTE_GAP_MS
            &&& after_second.last_char_at == Some(t2)
        }),
{
}

/// A key that the paste check drops means nothing.
pub proof fn lemma_dropped_key_means_nothing(state: AppModel, key: KeyEvent, now: u64)
    requires
        state.debounced(key.code, now).1,
    ensures
        state.key_translated(key, now).actions.len() == 0,
{
}

/// The state in which a submitted magnet leaves the wizard while it is probed.
pub open spec fn checking(state: AppModel) -> AppModel {
    AppModel {
        status: "Checking torrent..."@,
        dialog: Dialog::Closed,
        mode: Mode::Normal,
        ..AppModel { status: "Fetching metadata..."@, ..state }.input_cleared()
    }
}

/// Text that reads as an address, submitted as a magnet, queues the preflight.
proof fn lemma_submission_queues_preflight(state: AppModel, url: Seq<char>, now: u64)
    requires
        state.mode == Mode::EnterMagnet,
        trimmed(state.input).len() > 0,
        add_input(trimmed(state.input)) == AddInputModel::Url(url),
    ensures
        state.applied(ActionModel::InputEnter, now) == checking(state).push(
            ActionModel::RunEffect(EffectModel::PreflightAdd { magnet: trimmed(state.input) }),
        ),
{
    reveal(AppModel::applied);
}

/// The preflight for text that reads as an address begins with a probe at
/// the default destination.
proof fn lemma_preflight_probes(state: AppModel, magnet: Seq<char>, url: Seq<char>, now: u64)
    requires
        add_input(magnet) == AddInputModel::Url(url),
    ensures
        state.applied(
            ActionModel::RunEffect(EffectModel::PreflightAdd { magnet }),
            now,
        ) == state.call(
            RequestModel::AddTorrent {
                source: SourceModel::Url(url),
                options: probe_options(state.download_dir),
            },
            WaitModel::PreflightProbe { magnet },
        ),
{
    reveal(AppModel::applied);
}

/// The first half of a magnet's way through the wizard: where text that
/// reads as an address is submitted as a magnet, the reducer asks for a
/// probe at the default destination and waits with an empty queue.
pub proof fn lemma_magnet_submission_probes(state: AppModel, url: Seq<char>, now: u64)
    requires
        state.mode == Mode::EnterMagnet,
        trimmed(state.input).len() > 0,
        add_input(trimmed(state.input)) == AddInputModel::Url(url),
    ensures
        drained(state, seq![ActionModel::InputEnter], now) == (Drained {
            state: checking(state),
            outcome: OutcomeModel::Call(
                RequestModel::AddTorrent {
                    source: SourceModel::Url(url),
                    options: probe_options(state.download_dir),
                },
                SuspendedModel {
                    wait: WaitModel::PreflightProbe { magnet: trimmed(state.input) },
                    queue: Seq::empty(),
                    now,
                },
            ),
        }),
{
    let value = trimmed(state.input);
    let effect = ActionModel::RunEffect(EffectModel::PreflightAdd { magnet: value });
    let queue = seq![ActionModel::InputEnter];
    let rest = seq![effect];
    lemma_submission_queues_preflight(state, url, now);
    lemma_preflight_probes(checking(state), value, url, now);
    assert(queue.drop_first().push(effect) =~= rest);
    assert(rest.drop_first() =~= Seq::<ActionModel>::empty());
    lemma_drained_unfolds(state, queue, now);
    lemma_drained_unfolds(checking(state), rest, now);
}

/// Text without whitespace and control codes that begins like an address is
/// read as that address, as it is.
pub proof fn lemma_plain_address_is_read_as_it_is(text: Seq<char>)
    requires
        is_plain(text),
        is_url(text),
    ensures
        trimmed(text) == text,
        add_input(text) == AddInputModel::Url(text),
{
    lemma_plain_text_is_trimmed(text);
    lemma_plain_text_is_clean(text);
}

/// Enter on a plain address, entered as a magnet with nothing over the
/// input, asks for a probe of that address at the default destination and
/// waits with an empty queue.
pub proof fn lemma_enter_probes_a_plain_address(state: AppModel, now: u64)
    requires
        state.mode == Mode::EnterMagnet,
        !state.show_help,
        state.last_error is None,
        !state.confirm_delete,
        !state.confirm_quit,
        is_plain(state.input),
        is_url(state.input),
    ensures
        handled(
            state,
            EventModel::Key(KeyEvent { code: KeyCode::Enter, kind: KeyEventKind::Press }),
            now,
        ) == (Drained {
            state: checking(state),
            outcome: OutcomeModel::Call(
                RequestModel::AddTorrent {
                    source: SourceModel::Url(state.input),
                    options: probe_options(state.download_dir),
                },
                SuspendedModel {
                    wait: WaitModel::PreflightProbe { magnet: state.input },
                    queue: Seq::empty(),
                    now,
                },
            ),
        }),
{
    let enter = KeyEvent { code: KeyCode::Enter, kind: KeyEventKind::Press };
    let translated = state.translated(EventModel::Key(enter), now);
    assert(translated.state == state);
    assert(translated.actions =~= seq![ActionModel::InputEnter]);
    lemma_plain_address_is_read_as_it_is(state.input);
    assert(state.input.len() > 0) by {
        reveal_strlit("magnet:");
        reveal_strlit("http://");
        reveal_strlit("https://");
    }
    lemma_magnet_submission_probes(state, state.input, now);
}

/// The text `magnet:?xt=urn:btih:abc` is a plain address.
pub proof fn lemma_a_magnet_link_is_a_plain_address()
    ensures
        is_plain("magnet:?xt=urn:btih:abc"@),
        is_url("magnet:?xt=urn:btih:abc"@),
        add_input("magnet:?xt=urn:btih:abc"@) == AddInputModel::Url("magnet:?xt=urn:btih:abc"@),
{
    reveal_strlit("magnet:?xt=urn:btih:abc");
    reveal_strlit("magnet:");
    let text = "magnet:?xt=urn:btih:abc"@;
    assert("magnet:"@ =~= text.subrange(0, 7));
    lemma_plain_address_is_read_as_it_is(text);
}

/// The second half: where the probe answers and the torrent is not among
/// the listed ones, the queue drains into the destination step, with the
/// default destination in the input and the cursor behind it.
pub proof fn lemma_new_torrent_reaches_destination_step(
    state: AppModel,
    magnet: Seq<char>,
    response: AddResponseModel,
    list: Seq<DetailsModel>,
    now: u64,
)
    requires
        !is_listed(list, response.details.info_hash),
    ensures
        ({
            let probe = SuspendedModel {
                wait: WaitModel::PreflightProbe { magnet },
                queue: Seq::empty(),
                now,
            };
            let probed = resumed(state, probe, ReplyModel::Added(response));
            let listing = SuspendedModel {
                wait: WaitModel::PreflightList { magnet, info_hash: response.details.info_hash },
                queue: Seq::empty(),
                now,
            };
            let end = resumed(probed.state, listing, ReplyModel::Listing(list));
            &&& probed.state == state
            &&& probed.outcome == OutcomeModel::Call(
                RequestModel::ListTorrents { with_stats: false },
                listing,
            )
            &&& end.outcome == OutcomeModel::Done(false)
            &&& end.state.mode == Mode::EnterTorrentDir
            &&& end.state.input == state.download_dir
            &&& end.state.input_cursor == state.download_dir.len() as usize
            &&& end.state.pending_add_input == Some(magnet)
            &&& end.state.dialog == Dialog::AddTorrent
        }),
{
    let report = ActionModel::PreflightAddResult { magnet };
    let queue = Seq::<ActionModel>::empty().push(report);
    let step = state.applied(report, now);
    assert(step == state.destination_asked(magnet).go()) by {
        reveal(AppModel::applied);
    }
    assert(step.queue_after(queue.drop_first()) =~= Seq::<ActionModel>::empty());
    lemma_drained_unfolds(state, queue, now);
    assert(drained(step.state, Seq::<ActionModel>::empty(), now).state == step.state);
}

/// A folder is created only where the caller has just said that it does
/// not exist: at the first destination, or at the alternate one.
pub proof fn lemma_only_missing_folders_are_created(
    state: AppModel,
    wait: WaitModel,
    reply: ReplyModel,
    path: Seq<char>,
    then: WaitModel,
)
    requires
        state.replied(wait, reply).flow == FlowModel::Call(
            RequestModel::CreateDir { path },
            then,
        ),
    ensures
        reply == ReplyModel::Exists(false),
        (wait is PickerFirst && wait->PickerFirst_path == path) || (wait is PickerSecond
            && wait->PickerSecond_path == path),
        then is PickerCreate && then->PickerCreate_path == path,
{
}

/// Where the destination folder exists, it is not used: the caller is asked
/// for the alternate folder, which is the path that the platform makes of the
/// destination and the folder name with the start of the identity hash; where
/// that exists too, the wizard fails, and where it does not, it is created
/// and becomes the picker's destination.
pub proof fn lemma_existing_folder_is_not_reused(
    state: AppModel,
    magnet: Seq<char>,
    base: Seq<char>,
    folder_name: Seq<char>,
    path: Seq<char>,
    response: AddResponseModel,
)
    ensures
        ({
            let joined = joined_path(
                base,
                alternate_name(folder_name, response.details.info_hash),
            );
            let first = WaitModel::PickerFirst { magnet, base, folder_name, path, response };
            let second = WaitModel::PickerSecond {
                magnet,
                folder_name: alternate_name(folder_name, response.details.info_hash),
                path: joined,
                response,
            };
            &&& state.replied(first, ReplyModel::Exists(true)) == state.call(
                RequestModel::PathExists { path: joined },
                second,
            )
            &&& state.replied(second, ReplyModel::Exists(true)) == state.fail(
                Failure::DestinationExists,
            )
            &&& state.replied(second, ReplyModel::Exists(false)) == state.call(
                RequestModel::CreateDir { path: joined },
                WaitModel::PickerCreate { magnet, path: joined, response },
            )
            &&& state.replied(
                WaitModel::PickerCreate { magnet, path: joined, response },
                ReplyModel::Done,
            ).state.file_picker->0.output_folder == joined
        }),
{
}

/// Where the engine includes other files than those asked for, the added
/// torrent is removed again, and whatever the removal reports, the download
/// ends in the error funnel with the cache as it was.
pub proof fn lemma_unhonored_selection_is_rolled_back(
    state: AppModel,
    id: usize,
    only_files: Seq<usize>,
    details: DetailsModel,
    files: Seq<FileModel>,
    removal: ReplyModel,
    queue: Seq<ActionModel>,
    now: u64,
)
    requires
        details.files == Some(files),
        !honored(only_files, files),
    ensures
        ({
            let verify = SuspendedModel {
                wait: WaitModel::DownloadVerify { id, only_files },
                queue,
                now,
            };
            let rollback = SuspendedModel { wait: WaitModel::DownloadRollback, queue, now };
            let checked = resumed(state, verify, ReplyModel::Details(details));
            let end = resumed(checked.state, rollback, removal);
            &&& checked.state == state
            &&& checked.outcome == OutcomeModel::Call(RequestModel::Delete { id }, rollback)
            &&& end.outcome == OutcomeModel::Done(false)
            &&& end.state == state.failed(Failure::SelectionNotHonored.text())
            &&& end.state.torrents == state.torrents
            &&& end.state.dialog == Dialog::Error
        }),
{
}

/// However the files of the picker have been marked, once all are selected
/// every file is included, and confirming asks for the download of every
/// position, in order.
pub proof fn lemma_select_all_round_trip(state: AppModel, picker: PickerModel, now: u64)
    requires
        picker.files.len() <= usize::MAX,
        state.file_picker == Some(picker),
    ensures
        ({
            let cleared = state.applied(ActionModel::FilePickerNone, now).state;
            let selected = cleared.applied(ActionModel::FilePickerAll, now).state;
            let confirmed = selected.applied(ActionModel::FilePickerConfirm, now);
            &&& selected.file_picker is Some
            &&& selected.file_picker->0.files.len() == picker.files.len()
            &&& forall|i: int|
                0 <= i < picker.files.len() ==> (#[trigger] selected.file_picker->0.files[i]).included
            &&& confirmed.pushed == Some(
                ActionModel::RunEffect(
                    EffectModel::StartDownload {
                        magnet: picker.magnet,
                        output_folder: picker.output_folder,
                        only_files: Seq::new(picker.files.len(), |i: int| i as usize),
                    },
                ),
            )
        }),
{
    reveal(AppModel::applied);
    let off = picker.all_set(false);
    let on = off.all_set(true);
    lemma_all_included(off.files);
    assert(on.files.len() == picker.files.len());
}

} // verus!
