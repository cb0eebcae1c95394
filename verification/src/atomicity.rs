use vstd::prelude::*;
use crate::digest::sha1_hex_of;
use crate::install::{
    initial, temp_name, ActionView, EventView, FailureView, InstallErrorView, Installed,
    InstallerView, PhaseView,
};
use crate::manifest::DownloadView;

verus! {

/// The files of the working directory: each name that exists, with its bytes.
pub type Files = Map<Seq<char>, Seq<u8>>;

/// Whether two directories agree on every file but `name`.
pub open spec fn same_but(a: Files, b: Files, name: Seq<char>) -> bool {
    forall|n: Seq<char>|
        n != name ==> (#[trigger] a.contains_key(n) == b.contains_key(n)) && (a.contains_key(n)
            ==> a[n] == b[n])
}

/// What a directory holds under `name`, if anything.
pub open spec fn content(files: Files, name: Seq<char>) -> Option<Seq<u8>> {
    if files.contains_key(name) {
        Some(files[name])
    } else {
        None
    }
}

/// Whether the file `name` exists and has the digest `expected`.
pub open spec fn verified(files: Files, name: Seq<char>, expected: Seq<char>) -> bool {
    files.contains_key(name) && sha1_hex_of(files[name]) == expected
}

/// Whether the outside world, in the directory `before`, may answer `action`
/// with `answer` and leave the directory as `after`.
///
/// A read changes nothing and reports what is there. Creating, appending and
/// removing touch the named file alone; where they fail, that file is left in
/// any state. A rename moves the file in one step, and changes nothing at its
/// destination where it fails. The transfer touches no file. Nothing answers
/// the end of the installation or a rejection.
pub open spec fn performed(before: Files, action: ActionView, answer: EventView, after: Files) -> bool {
    match action {
        ActionView::ReadFile { name } => after == before && match answer {
            EventView::Existing(data) => content(before, name) == Some(data),
            EventView::Missing => !before.contains_key(name),
            EventView::Failed(_) => true,
            _ => false,
        },
        ActionView::CreateFile { name } => same_but(before, after, name) && match answer {
            EventView::Done => content(after, name) == Some(Seq::<u8>::empty()),
            EventView::Failed(_) => true,
            _ => false,
        },
        ActionView::OpenStream { url } => after == before && (answer is Done || answer is Failed),
        ActionView::NextChunk => after == before && (answer is Chunk || answer is EndOfStream
            || answer is Failed),
        ActionView::Append { name, bytes } => same_but(before, after, name) && match answer {
            EventView::Done => before.contains_key(name) && content(after, name) == Some(
                before[name] + bytes,
            ),
            EventView::Failed(_) => true,
            _ => false,
        },
        ActionView::Remove { name } => same_but(before, after, name) && match answer {
            EventView::Done => !after.contains_key(name),
            EventView::Failed(_) => true,
            _ => false,
        },
        ActionView::Rename { from, to } => match answer {
            EventView::Done => before.contains_key(from) && after == before.remove(from).insert(
                to,
                before[from],
            ),
            EventView::Failed(_) => same_but(before, after, from),
            _ => false,
        },
        ActionView::Finish(_) => false,
        ActionView::Rejected => false,
    }
}

/// Whether an installation in state `s`, awaiting the answer to `pending` in
/// the directory `files`, has kept its promises so far, `at_start` being what
/// the target held when the installation began.
///
/// Until the end the target is as it was. The temporary file holds exactly
/// what was hashed; it is moved into place only with the expected digest. At
/// the end, a success leaves the target with the expected digest, a failure
/// leaves it as it was, and a reported mismatch with a clean removal leaves no
/// temporary file.
pub open spec fn consistent(
    s: InstallerView,
    pending: ActionView,
    files: Files,
    at_start: Option<Seq<u8>>,
) -> bool {
    &&& s.temp != s.target
    &&& match s.phase {
        PhaseView::Checking => {
            &&& pending == (ActionView::ReadFile { name: s.target })
            &&& content(files, s.target) == at_start
        },
        PhaseView::Creating => {
            &&& pending == (ActionView::CreateFile { name: s.temp })
            &&& content(files, s.target) == at_start
        },
        PhaseView::Opening => {
            &&& pending == (ActionView::OpenStream { url: s.url })
            &&& content(files, s.target) == at_start
            &&& content(files, s.temp) == Some(Seq::<u8>::empty())
        },
        PhaseView::Streaming { hashed } => {
            &&& pending == ActionView::NextChunk
            &&& content(files, s.target) == at_start
            &&& content(files, s.temp) == Some(hashed)
        },
        PhaseView::Writing { hashed } => {
            &&& pending matches ActionView::Append { name, bytes }
            &&& name == s.temp
            &&& content(files, s.target) == at_start
            &&& files.contains_key(s.temp)
            &&& files[s.temp] + bytes == hashed
        },
        PhaseView::Committing => {
            &&& pending == (ActionView::Rename { from: s.temp, to: s.target })
            &&& content(files, s.target) == at_start
            &&& verified(files, s.temp, s.expected)
        },
        PhaseView::Cleaning { error } => {
            &&& pending == (ActionView::Remove { name: s.temp })
            &&& content(files, s.target) == at_start
            &&& error matches InstallErrorView::ChecksumMismatch { expected, actual } ==> expected
                == s.expected && actual != expected
        },
        PhaseView::Finished => {
            &&& pending matches ActionView::Finish(result)
            &&& match result {
                Ok(Installed::AlreadyPresent) => content(files, s.target) == at_start && verified(
                    files,
                    s.target,
                    s.expected,
                ),
                Ok(Installed::Downloaded) => verified(files, s.target, s.expected),
                Err(failure) => {
                    &&& content(files, s.target) == at_start
                    &&& failure.error matches InstallErrorView::ChecksumMismatch {
                        expected,
                        actual,
                    } ==> expected == s.expected && actual != expected && (failure.cleanup is None
                        ==> !files.contains_key(s.temp))
                },
            }
        },
    }
}

/// The temporary file never has the target's name.
pub proof fn lemma_temp_is_not_target(prefix: u64, target: Seq<char>)
    ensures
        temp_name(prefix, target) != target,
{
    assert(temp_name(prefix, target).len() > target.len());
}

/// An installation starts consistent, whatever the directory holds.
pub proof fn lemma_start_is_consistent(
    download: DownloadView,
    target: Seq<char>,
    prefix: u64,
    files: Files,
)
    ensures
        consistent(
            initial(download, target, prefix),
            ActionView::ReadFile { name: target },
            files,
            content(files, target),
        ),
{
    lemma_temp_is_not_target(prefix, target);
}

/// Each answer of the outside world leaves the installation consistent: the
/// target is never replaced but by a file with the expected digest, and never
/// touched otherwise.
pub proof fn lemma_step_keeps_consistent(
    s: InstallerView,
    pending: ActionView,
    files: Files,
    at_start: Option<Seq<u8>>,
    answer: EventView,
    after: Files,
)
    requires
        consistent(s, pending, files, at_start),
        performed(files, pending, answer, after),
    ensures
        consistent(s.next(answer).0, s.next(answer).1, after, at_start),
{
}

/// One exchange with the outside world: its answer to the action under way,
/// and the directory as that action left it.
pub struct Exchange {
    pub answer: EventView,
    pub after: Files,
}

/// Where an installation stands after the given exchanges, each answering the
/// action that the step before asked for; `None` where some exchange is not
/// one that the outside world can make.
pub open spec fn run(s: InstallerView, pending: ActionView, files: Files, exchanges: Seq<Exchange>)
    -> Option<(InstallerView, ActionView, Files)>
    decreases exchanges.len(),
{
    if exchanges.len() == 0 {
        Some((s, pending, files))
    } else if performed(files, pending, exchanges[0].answer, exchanges[0].after) {
        run(
            s.next(exchanges[0].answer).0,
            s.next(exchanges[0].answer).1,
            exchanges[0].after,
            exchanges.drop_first(),
        )
    } else {
        None
    }
}

/// Consistency lasts through any number of exchanges.
pub proof fn lemma_run_keeps_consistent(
    s: InstallerView,
    pending: ActionView,
    files: Files,
    at_start: Option<Seq<u8>>,
    exchanges: Seq<Exchange>,
)
    requires
        consistent(s, pending, files, at_start),
        run(s, pending, files, exchanges) is Some,
    ensures
        ({
            let end = run(s, pending, files, exchanges).unwrap();
            consistent(end.0, end.1, end.2, at_start)
        }),
    decreases exchanges.len(),
{
    if exchanges.len() > 0 {
        let x = exchanges[0];
        lemma_step_keeps_consistent(s, pending, files, at_start, x.answer, x.after);
        lemma_run_keeps_consistent(
            s.next(x.answer).0,
            s.next(x.answer).1,
            x.after,
            at_start,
            exchanges.drop_first(),
        );
    }
}

/// Atomic installation. However far an installation gets, and wherever it is
/// cut off, the target either holds what it held at the start or holds a file
/// with the expected digest; it is never missing where it was present, and
/// never holds part of a download. Until the installation has ended, the
/// target is exactly as it was at the start.
pub proof fn lemma_target_is_never_corrupted(
    download: DownloadView,
    target: Seq<char>,
    prefix: u64,
    files: Files,
    exchanges: Seq<Exchange>,
)
    requires
        run(
            initial(download, target, prefix),
            ActionView::ReadFile { name: target },
            files,
            exchanges,
        ) is Some,
    ensures
        ({
            let end = run(
                initial(download, target, prefix),
                ActionView::ReadFile { name: target },
                files,
                exchanges,
            ).unwrap();
            &&& content(end.2, target) == content(files, target) || verified(
                end.2,
                target,
                download.sha1,
            )
            &&& !(end.0.phase is Finished) ==> content(end.2, target) == content(files, target)
        }),
{
    let s = initial(download, target, prefix);
    let first = ActionView::ReadFile { name: target };
    lemma_start_is_consistent(download, target, prefix, files);
    lemma_run_keeps_consistent(s, first, files, content(files, target), exchanges);
    lemma_run_keeps_settings(s, first, files, exchanges);
}

/// An installation never changes what it installs, nor where.
pub proof fn lemma_run_keeps_settings(
    s: InstallerView,
    pending: ActionView,
    files: Files,
    exchanges: Seq<Exchange>,
)
    requires
        run(s, pending, files, exchanges) is Some,
    ensures
        ({
            let end = run(s, pending, files, exchanges).unwrap().0;
            end.expected == s.expected && end.url == s.url && end.target == s.target && end.temp
                == s.temp
        }),
    decreases exchanges.len(),
{
    if exchanges.len() > 0 {
        let x = exchanges[0];
        lemma_run_keeps_settings(
            s.next(x.answer).0,
            s.next(x.answer).1,
            x.after,
            exchanges.drop_first(),
        );
    }
}

/// How an installation that has ended left the directory: after a success the
/// target has the expected digest; after a failure it is as it was; and after
/// a mismatch whose cleanup succeeded the temporary file is gone.
pub proof fn lemma_outcome(
    download: DownloadView,
    target: Seq<char>,
    prefix: u64,
    files: Files,
    exchanges: Seq<Exchange>,
)
    requires
        run(
            initial(download, target, prefix),
            ActionView::ReadFile { name: target },
            files,
            exchanges,
        ) is Some,
    ensures
        ({
            let end = run(
                initial(download, target, prefix),
                ActionView::ReadFile { name: target },
                files,
                exchanges,
            ).unwrap();
            end.1 matches ActionView::Finish(result) ==> match result {
                Ok(_) => verified(end.2, target, download.sha1),
                Err(failure) => {
                    &&& content(end.2, target) == content(files, target)
                    &&& failure.error matches InstallErrorView::ChecksumMismatch {
                        expected,
                        actual,
                    } ==> expected == download.sha1 && actual != expected && (failure.cleanup
                        is None ==> !end.2.contains_key(temp_name(prefix, target)))
                },
            }
        }),
{
    let s = initial(download, target, prefix);
    let first = ActionView::ReadFile { name: target };
    lemma_start_is_consistent(download, target, prefix, files);
    lemma_run_keeps_consistent(s, first, files, content(files, target), exchanges);
    lemma_run_keeps_settings(s, first, files, exchanges);
    let end = run(s, first, files, exchanges).unwrap();
    if end.1 is Finish {
        assert(end.0.phase is Finished) by {
            lemma_finish_means_finished(s, first, files, content(files, target), exchanges);
        }
    }
}

/// Only an installation that has ended reports a result.
pub proof fn lemma_finish_means_finished(
    s: InstallerView,
    pending: ActionView,
    files: Files,
    at_start: Option<Seq<u8>>,
    exchanges: Seq<Exchange>,
)
    requires
        consistent(s, pending, files, at_start),
        run(s, pending, files, exchanges) is Some,
    ensures
        ({
            let end = run(s, pending, files, exchanges).unwrap();
            end.1 is Finish <==> end.0.phase is Finished
        }),
{
    lemma_run_keeps_consistent(s, pending, files, at_start, exchanges);
}

/// A file in place with the expected digest ends the installation at once:
/// the answer to the first read is followed by no transfer and no write.
pub proof fn lemma_verified_target_skips_download(
    download: DownloadView,
    target: Seq<char>,
    prefix: u64,
    files: Files,
    answer: EventView,
    after: Files,
)
    requires
        verified(files, target, download.sha1),
        performed(files, ActionView::ReadFile { name: target }, answer, after),
        !(answer is Failed),
    ensures
        initial(download, target, prefix).next(answer) == initial(
            download,
            target,
            prefix,
        ).finished(Ok(Installed::AlreadyPresent)),
        after == files,
{
}

/// Installing twice. Where one installation has succeeded, a second one of the
/// same download over the directory that the first left finds the target
/// verified and succeeds on reading it, without a transfer.
pub proof fn lemma_second_install_needs_no_transfer(
    download: DownloadView,
    target: Seq<char>,
    first_prefix: u64,
    second_prefix: u64,
    files: Files,
    exchanges: Seq<Exchange>,
    answer: EventView,
    after: Files,
)
    requires
        run(
            initial(download, target, first_prefix),
            ActionView::ReadFile { name: target },
            files,
            exchanges,
        ) matches Some(end) && end.1 matches ActionView::Finish(Ok(_)) && performed(
            end.2,
            ActionView::ReadFile { name: target },
            answer,
            after,
        ),
        !(answer is Failed),
    ensures
        initial(download, target, second_prefix).next(answer).1 == ActionView::Finish(
            Ok(Installed::AlreadyPresent),
        ),
{
    lemma_outcome(download, target, first_prefix, files, exchanges);
}

/// All the bytes that the transfer delivered over the given exchanges, in
/// order.
pub open spec fn streamed(exchanges: Seq<Exchange>) -> Seq<u8>
    decreases exchanges.len(),
{
    if exchanges.len() == 0 {
        Seq::empty()
    } else {
        match exchanges[0].answer {
            EventView::Chunk(bytes) => bytes + streamed(exchanges.drop_first()),
            _ => streamed(exchanges.drop_first()),
        }
    }
}

/// The bytes hashed so far, in a phase that hashes; nothing in any other.
pub open spec fn hashed_so_far(s: InstallerView) -> Seq<u8> {
    match s.phase {
        PhaseView::Streaming { hashed } => hashed,
        PhaseView::Writing { hashed } => hashed,
        _ => Seq::empty(),
    }
}

/// Whether the transfer lies behind: the download is being committed or
/// cleaned up, or the installation has ended.
pub open spec fn is_past_transfer(phase: PhaseView) -> bool {
    phase is Committing || phase is Cleaning || phase is Finished
}

/// What is hashed is what was delivered: while the transfer lasts, the bytes
/// hashed are those hashed before, followed by every part delivered since, in
/// order; and once the transfer lies behind, it stays behind.
pub proof fn lemma_hashed_is_what_was_streamed(
    s: InstallerView,
    pending: ActionView,
    files: Files,
    at_start: Option<Seq<u8>>,
    exchanges: Seq<Exchange>,
)
    requires
        consistent(s, pending, files, at_start),
        run(s, pending, files, exchanges) is Some,
    ensures
        ({
            let end = run(s, pending, files, exchanges).unwrap().0;
            &&& is_past_transfer(s.phase) ==> is_past_transfer(end.phase)
            &&& !is_past_transfer(end.phase) ==> hashed_so_far(end) == hashed_so_far(s) + streamed(
                exchanges,
            )
        }),
    decreases exchanges.len(),
{
    if exchanges.len() > 0 {
        let x = exchanges[0];
        let then = s.next(x.answer);
        lemma_step_keeps_consistent(s, pending, files, at_start, x.answer, x.after);
        lemma_hashed_is_what_was_streamed(then.0, then.1, x.after, at_start, exchanges.drop_first());
        let end = run(s, pending, files, exchanges).unwrap().0;
        if !is_past_transfer(end.phase) {
            assert(hashed_so_far(then.0) + streamed(exchanges.drop_first()) =~= hashed_so_far(s)
                + streamed(exchanges));
        }
    } else {
        assert(hashed_so_far(s) + streamed(exchanges) =~= hashed_so_far(s));
    }
}

/// Corrupted downloads. Where the transfer has delivered all its parts and
/// their digest is not the expected one, the temporary file is removed, and
/// once it is gone the installation fails with a mismatch that names the
/// expected digest and the digest of what was delivered.
pub proof fn lemma_corrupt_stream_is_reported(
    download: DownloadView,
    target: Seq<char>,
    prefix: u64,
    files: Files,
    exchanges: Seq<Exchange>,
)
    requires
        run(
            initial(download, target, prefix),
            ActionView::ReadFile { name: target },
            files,
            exchanges,
        ) matches Some(end) && end.1 == ActionView::NextChunk,
        sha1_hex_of(streamed(exchanges)) != download.sha1,
    ensures
        ({
            let end = run(
                initial(download, target, prefix),
                ActionView::ReadFile { name: target },
                files,
                exchanges,
            ).unwrap().0;
            let (cleaning, remove) = end.next(EventView::EndOfStream);
            &&& remove == (ActionView::Remove { name: temp_name(prefix, target) })
            &&& cleaning.next(EventView::Done).1 == ActionView::Finish(
                Err(
                    FailureView {
                        error: InstallErrorView::ChecksumMismatch {
                            expected: download.sha1,
                            actual: sha1_hex_of(streamed(exchanges)),
                        },
                        cleanup: None,
                    },
                ),
            )
        }),
{
    let s = initial(download, target, prefix);
    let first = ActionView::ReadFile { name: target };
    let at_start = content(files, target);
    lemma_start_is_consistent(download, target, prefix, files);
    lemma_run_keeps_consistent(s, first, files, at_start, exchanges);
    lemma_run_keeps_settings(s, first, files, exchanges);
    lemma_hashed_is_what_was_streamed(s, first, files, at_start, exchanges);
    let end = run(s, first, files, exchanges).unwrap().0;
    assert(end.phase is Streaming);
    assert(hashed_so_far(s) + streamed(exchanges) =~= streamed(exchanges));
}

} // verus!
