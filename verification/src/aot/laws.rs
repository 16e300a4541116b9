//! What holds of the check of the cache as a whole.

use crate::aot::meta::{
    cache_dir, cache_file, conf_file, meta_file, meta_of, AotMeta, MetaView, AOT_CACHE_FILE,
    AOT_CACHE_META, AOT_CACHE_META_TMP, AOT_CONF_FILE,
};
use crate::aot::{
    check_end, check_error, check_request, check_start, check_step, decision_with_cache, decision_without_cache,
    reply_view, silent, AotCheck, AotCheckAction, AotCheckActionView, AotCheckEvent,
    AotCheckReplyView, Decision, DecisionView,
};
use crate::args::RecordMode;
use crate::errors::{seen, wrapped_error, Error, ErrorView, ONLY_USE_AOT_FAILED_EXIT_CODE};
use crate::launcher::AotCacheAction;
use crate::path::{FilePath, PathView};
use vstd::prelude::*;

verus! {

/// What a check finds when it looks.
pub struct AotFacts {
    /// The outcome of creating the directory of the cache.
    pub directory: Result<(), ErrorView>,
    pub cache_exists: bool,
    pub meta_exists: bool,
    /// The outcome of reading the file of the meta data.
    pub content: Result<Seq<u8>, ErrorView>,
    /// The outcome of collecting the meta data of the run.
    pub current: Result<MetaView, ErrorView>,
}

/// What was saved with a cache that is there: none where a file is missing or
/// does not hold meta data.
pub open spec fn saved_meta(facts: AotFacts) -> Option<MetaView> {
    if facts.cache_exists && facts.meta_exists {
        match facts.content {
            Ok(bytes) => meta_of(bytes),
            Err(_) => None,
        }
    } else {
        None
    }
}

/// The cache is there, and was recorded with what the run has now.
pub open spec fn cache_valid(facts: AotFacts) -> bool {
    saved_meta(facts) matches Some(m) && facts.current == Ok::<MetaView, ErrorView>(m)
}

/// Nothing failed that the check looked at.
pub open spec fn nothing_failed(facts: AotFacts) -> bool {
    &&& facts.directory is Ok
    &&& facts.cache_exists && facts.meta_exists ==> facts.content is Ok
    &&& saved_meta(facts) is Some ==> facts.current is Ok
}

/// What a check comes to on these facts.
pub open spec fn aot_outcome(record: RecordMode, repo: PathView, facts: AotFacts) -> DecisionView {
    if record == RecordMode::NoAot {
        silent(Ok(AotCacheAction::NoCache))
    } else {
        match facts.directory {
            Err(cause) => silent(
                Err(
                    wrapped_error(
                        "Failed to create directory: "@ + cache_dir(repo).shown(),
                        cause,
                    ),
                ),
            ),
            Ok(_) => if facts.cache_exists && facts.meta_exists && facts.content is Err {
                silent(
                    Err(
                        wrapped_error(
                            "Failed to read AOT meta file: "@ + meta_file(repo).shown(),
                            facts.content->Err_0,
                        ),
                    ),
                )
            } else {
                match saved_meta(facts) {
                    None => decision_without_cache(record),
                    Some(saved) => match facts.current {
                        Err(cause) => silent(Err(cause)),
                        Ok(current) => decision_with_cache(record, current == saved),
                    },
                }
            },
        }
    }
}

/// What comes of an action on these facts.
pub open spec fn reply_to(repo: PathView, facts: AotFacts, a: AotCheckActionView) -> AotCheckReplyView {
    match a {
        AotCheckAction::CreateDirectory(_) => AotCheckEvent::DirectoryCreated(facts.directory),
        AotCheckAction::LookFor(p) => AotCheckEvent::Found(
            if p == cache_file(repo) {
                facts.cache_exists
            } else {
                facts.meta_exists
            },
        ),
        AotCheckAction::ReadMeta(_) => AotCheckEvent::MetaRead(facts.content),
        _ => AotCheckEvent::MetaBuilt(facts.current),
    }
}

/// The decision that a check comes to within `steps` steps.
pub open spec fn check_run(
    record: RecordMode,
    repo: PathView,
    facts: AotFacts,
    at: (AotCheck<MetaView>, AotCheckActionView),
    steps: nat,
) -> Option<DecisionView>
    decreases steps,
{
    match at.1 {
        AotCheckAction::Finish(d) => Some(d),
        a => if steps == 0 {
            None
        } else {
            check_run(
                record,
                repo,
                facts,
                check_step(record, repo, at.0, reply_to(repo, facts, a)),
                (steps - 1) as nat,
            )
        },
    }
}

/// The files of a cache are four different names in one directory: that of the
/// cache, of its configuration, of its meta data, and of meta data that is
/// being written.
pub proof fn law_files_are_apart(dir: PathView)
    ensures
        cache_file(dir).parent() == cache_dir(dir),
        conf_file(dir).parent() == cache_dir(dir),
        meta_file(dir).parent() == cache_dir(dir),
        cache_file(dir) != conf_file(dir),
        cache_file(dir) != meta_file(dir),
        conf_file(dir) != meta_file(dir),
        meta_file(dir).parent().child(AOT_CACHE_META_TMP@) != meta_file(dir),
        meta_file(dir).parent().child(AOT_CACHE_META_TMP@) != cache_file(dir),
        meta_file(dir).parent().child(AOT_CACHE_META_TMP@) != conf_file(dir),
{
    reveal_strlit("paper.aot");
    reveal_strlit("paper.aot.config");
    reveal_strlit("paper.aot.meta");
    reveal_strlit("paper.aot.meta.tmp");
    assert(AOT_CACHE_FILE@.len() == 9);
    assert(AOT_CONF_FILE@.len() == 16);
    assert(AOT_CACHE_META@.len() == 14);
    assert(AOT_CACHE_META_TMP@.len() == 18);
    assert(cache_file(dir).parent() =~= cache_dir(dir));
    assert(conf_file(dir).parent() =~= cache_dir(dir));
    assert(meta_file(dir).parent() =~= cache_dir(dir));
    assert(cache_file(dir).names.last() == AOT_CACHE_FILE@);
    assert(conf_file(dir).names.last() == AOT_CONF_FILE@);
    assert(meta_file(dir).names.last() == AOT_CACHE_META@);
    assert(cache_dir(dir).child(AOT_CACHE_META_TMP@).names.last() == AOT_CACHE_META_TMP@);
}

/// A check ends, after five replies at most, with the outcome of what it found.
pub proof fn law_check_ends(record: RecordMode, repo: PathView, facts: AotFacts)
    ensures
        check_run(record, repo, facts, check_start(record, repo), 5) == Some(
            aot_outcome(record, repo, facts),
        ),
{
    law_files_are_apart(repo);
    reveal_with_fuel(check_run, 6);
}

/// A run that is to go without a cache looks at nothing.
pub proof fn law_no_aot_looks_at_nothing(repo: PathView)
    ensures
        check_start(RecordMode::NoAot, repo).1 == AotCheckAction::<PathView, DecisionView>::Finish(
            silent(Ok(AotCacheAction::NoCache)),
        ),
{
}

/// A cache is used only where it is valid, and only in the modes for that.
pub proof fn law_only_a_valid_cache_is_used(record: RecordMode, repo: PathView, facts: AotFacts)
    requires
        aot_outcome(record, repo, facts).result == Ok::<AotCacheAction, ErrorView>(
            AotCacheAction::Use,
        ),
    ensures
        cache_valid(facts),
        record == RecordMode::Normal || record == RecordMode::OnlyUse || record
            == RecordMode::NoRecord,
{
}

/// A cache that was recorded with what the run has now is used by the next
/// normal run, by one that only uses, and by one that does not record.
pub proof fn law_a_recorded_cache_is_used(
    record: RecordMode,
    repo: PathView,
    facts: AotFacts,
    meta: MetaView,
)
    requires
        record == RecordMode::Normal || record == RecordMode::OnlyUse || record
            == RecordMode::NoRecord,
        facts.directory is Ok,
        facts.cache_exists,
        facts.meta_exists,
        facts.content matches Ok(bytes) && meta_of(bytes) == Some(meta),
        facts.current == Ok::<MetaView, ErrorView>(meta),
    ensures
        aot_outcome(record, repo, facts) == silent(Ok(AotCacheAction::Use)),
{
}

/// Where nothing fails, a normal run uses a valid cache and records otherwise;
/// it never goes without one.
pub proof fn law_normal(repo: PathView, facts: AotFacts)
    requires
        nothing_failed(facts),
    ensures
        aot_outcome(RecordMode::Normal, repo, facts) == silent(
            Ok(
                if cache_valid(facts) {
                    AotCacheAction::Use
                } else {
                    AotCacheAction::Record
                },
            ),
        ),
{
}

/// A run that checks only never goes on: it ends with exit code 0 exactly where
/// the cache is valid, and with 1 otherwise.
pub proof fn law_check_only(repo: PathView, facts: AotFacts)
    ensures
        aot_outcome(RecordMode::Check, repo, facts).result is Err,
        nothing_failed(facts) ==> aot_outcome(RecordMode::Check, repo, facts) == silent(
            Err(
                ErrorView::Exit(
                    if cache_valid(facts) {
                        0
                    } else {
                        1
                    },
                ),
            ),
        ),
{
}

/// A run that only uses a cache never records: it uses a valid one, and ends
/// with its own exit code otherwise, with a notice.
pub proof fn law_only_use(repo: PathView, facts: AotFacts)
    requires
        nothing_failed(facts),
    ensures
        cache_valid(facts) ==> aot_outcome(RecordMode::OnlyUse, repo, facts) == silent(
            Ok(AotCacheAction::Use),
        ),
        !cache_valid(facts) ==> {
            &&& aot_outcome(RecordMode::OnlyUse, repo, facts).result == Err::<
                AotCacheAction,
                ErrorView,
            >(ErrorView::Exit(ONLY_USE_AOT_FAILED_EXIT_CODE))
            &&& aot_outcome(RecordMode::OnlyUse, repo, facts).notice is Some
        },
{
}

/// A run that does not record never records.
pub proof fn law_no_record(repo: PathView, facts: AotFacts)
    requires
        nothing_failed(facts),
    ensures
        aot_outcome(RecordMode::NoRecord, repo, facts) == silent(
            Ok(
                if cache_valid(facts) {
                    AotCacheAction::Use
                } else {
                    AotCacheAction::NoCache
                },
            ),
        ),
{
}

/// A run that only records ends at once, with exit code 0, where the cache is
/// valid, and records otherwise; one that is forced to record always does.
pub proof fn law_recording(repo: PathView, facts: AotFacts)
    requires
        nothing_failed(facts),
    ensures
        cache_valid(facts) ==> aot_outcome(RecordMode::OnlyRecord, repo, facts) == silent(
            Err(ErrorView::Exit(0)),
        ),
        !cache_valid(facts) ==> aot_outcome(RecordMode::OnlyRecord, repo, facts) == silent(
            Ok(AotCacheAction::Record),
        ),
        aot_outcome(RecordMode::ForceRecord, repo, facts) == silent(Ok(AotCacheAction::Record)),
{
}

/// A cache without its meta data, such as one that a recording left unfinished,
/// is never used.
pub proof fn law_no_meta_no_use(record: RecordMode, repo: PathView, facts: AotFacts)
    requires
        !facts.meta_exists,
    ensures
        aot_outcome(record, repo, facts).result != Ok::<AotCacheAction, ErrorView>(
            AotCacheAction::Use,
        ),
{
}

/// A decision that is silent tells the user nothing.
pub proof fn law_silent(result: Result<AotCacheAction, ErrorView>)
    ensures
        silent(result).notice is None,
        silent(result).result == result,
{
}

/// A run that only uses a cache and has no valid one ends with exit code 33, and
/// tells the user whether there is none or it is invalid. No other run is told
/// anything.
pub proof fn law_what_the_user_is_told(record: RecordMode, repo: PathView, facts: AotFacts)
    requires
        nothing_failed(facts),
    ensures
        ({
            let d = aot_outcome(record, repo, facts);
            let without = record == RecordMode::OnlyUse && !cache_valid(facts);
            &&& without ==> d.result == Err::<AotCacheAction, ErrorView>(ErrorView::Exit(33))
            &&& without && saved_meta(facts) is None ==> d.notice == Some("No AOT cache found"@)
            &&& without && saved_meta(facts) is Some ==> d.notice == Some("AOT cache is invalid"@)
            &&& !without ==> d.notice is None
        }),
{
}

/// A cache is valid exactly where both of its files are there, the file of the
/// meta data holds meta data, and the run collects the same.
pub proof fn law_valid_cache(facts: AotFacts, bytes: Seq<u8>, m: MetaView)
    requires
        facts.content == Ok::<Seq<u8>, ErrorView>(bytes),
        facts.current == Ok::<MetaView, ErrorView>(m),
    ensures
        cache_valid(facts) <==> facts.cache_exists && facts.meta_exists && meta_of(bytes) == Some(m),
{
}

/// A failure of the check is what it comes to, in every mode but the one that
/// goes without a cache: that the directory was not created, that the meta data
/// was not read, and that the meta data of the run was not collected. The texts of
/// the first two name the path. Nothing is told besides.
pub proof fn law_check_fails(record: RecordMode, repo: PathView, facts: AotFacts)
    requires
        record != RecordMode::NoAot,
    ensures
        ({
            let d = aot_outcome(record, repo, facts);
            let there = facts.directory is Ok && facts.cache_exists && facts.meta_exists;
            &&& facts.directory matches Err(e) ==> d.notice is None && (d.result matches Err(out)
                && out.text() == "Failed to create directory: "@ + cache_dir(repo).shown()
                + "\nCaused by: "@ + e.text())
            &&& there && facts.content is Err ==> d.notice is None && (d.result matches Err(out)
                && out.text() == "Failed to read AOT meta file: "@ + meta_file(repo).shown()
                + "\nCaused by: "@ + facts.content->Err_0.text())
            &&& there && (facts.content matches Ok(bytes) && meta_of(bytes) is Some)
                && facts.current is Err ==> d.notice is None && d.result == Err::<
                AotCacheAction,
                ErrorView,
            >(facts.current->Err_0)
        }),
{
    reveal_with_fuel(ErrorView::text, 2);
}

/// The actions that a check asks for within `steps` steps, up to its end.
pub open spec fn check_actions(
    record: RecordMode,
    repo: PathView,
    facts: AotFacts,
    at: (AotCheck<MetaView>, AotCheckActionView),
    steps: nat,
) -> Seq<AotCheckActionView>
    decreases steps,
{
    match at.1 {
        AotCheckAction::Finish(_) => seq![at.1],
        a => if steps == 0 {
            seq![a]
        } else {
            seq![a] + check_actions(
                record,
                repo,
                facts,
                check_step(record, repo, at.0, reply_to(repo, facts, a)),
                (steps - 1) as nat,
            )
        },
    }
}

/// A check creates the directory of the cache, looks for the file of the cache
/// and then for that of the meta data, reads the latter, and collects the meta
/// data of the run last; it does each only where the ones before left it
/// anything to do.
pub proof fn law_check_in_order(record: RecordMode, repo: PathView, facts: AotFacts)
    requires
        record != RecordMode::NoAot,
    ensures
        ({
            let done = check_actions(record, repo, facts, check_start(record, repo), 5);
            let n = done.len();
            let dir = repo.child(".paper"@).child("cache"@);
            let made = facts.directory is Ok;
            let both = made && facts.cache_exists && facts.meta_exists;
            let saved = both && (facts.content matches Ok(bytes) && meta_of(bytes) is Some);
            &&& done[0] == AotCheckAction::<PathView, DecisionView>::CreateDirectory(dir)
            &&& !made ==> n == 2
            &&& made ==> n >= 3 && done[1] == AotCheckAction::<PathView, DecisionView>::LookFor(
                dir.child("paper.aot"@),
            )
            &&& made && !facts.cache_exists ==> n == 3
            &&& made && facts.cache_exists ==> n >= 4 && done[2] == AotCheckAction::<
                PathView,
                DecisionView,
            >::LookFor(dir.child("paper.aot.meta"@))
            &&& made && facts.cache_exists && !facts.meta_exists ==> n == 4
            &&& both ==> n >= 5 && done[3] == AotCheckAction::<PathView, DecisionView>::ReadMeta(
                dir.child("paper.aot.meta"@),
            )
            &&& both && !saved ==> n == 5
            &&& saved ==> n == 6 && done[4] is BuildMeta
            &&& done[n - 1] is Finish
        }),
{
    law_files_are_apart(repo);
    reveal_with_fuel(check_actions, 6);
}

/// The view of an event of a check is the same event over views.
pub proof fn law_check_reply_view(
    u: Result<(), Error>,
    found: bool,
    bytes: Vec<u8>,
    m: AotMeta,
    e: Error,
)
    ensures
        reply_view(AotCheckEvent::DirectoryCreated(u)) == AotCheckEvent::<
            Result<(), ErrorView>,
            Result<Seq<u8>, ErrorView>,
            Result<MetaView, ErrorView>,
        >::DirectoryCreated(seen(u)),
        reply_view(AotCheckEvent::Found(found)) == AotCheckEvent::<
            Result<(), ErrorView>,
            Result<Seq<u8>, ErrorView>,
            Result<MetaView, ErrorView>,
        >::Found(found),
        reply_view(AotCheckEvent::MetaRead(Ok(bytes))) == AotCheckEvent::<
            Result<(), ErrorView>,
            Result<Seq<u8>, ErrorView>,
            Result<MetaView, ErrorView>,
        >::MetaRead(Ok(bytes@)),
        reply_view(AotCheckEvent::MetaRead(Err(e))) == AotCheckEvent::<
            Result<(), ErrorView>,
            Result<Seq<u8>, ErrorView>,
            Result<MetaView, ErrorView>,
        >::MetaRead(Err(e@)),
        reply_view(AotCheckEvent::MetaBuilt(Ok(m))) == AotCheckEvent::<
            Result<(), ErrorView>,
            Result<Seq<u8>, ErrorView>,
            Result<MetaView, ErrorView>,
        >::MetaBuilt(Ok(m@)),
        reply_view(AotCheckEvent::MetaBuilt(Err(e))) == AotCheckEvent::<
            Result<(), ErrorView>,
            Result<Seq<u8>, ErrorView>,
            Result<MetaView, ErrorView>,
        >::MetaBuilt(Err(e@)),
{
}

/// The error that an event of a check brings is the one in it, and what a check
/// comes to is the result of its decision.
pub proof fn law_check_error(e: Error, d: Decision)
    ensures
        check_error(AotCheckEvent::DirectoryCreated(Err(e))) == Some(e),
        check_error(AotCheckEvent::MetaRead(Err(e))) == Some(e),
        check_error(AotCheckEvent::MetaBuilt(Err(e))) == Some(e),
        check_end(AotCheckAction::Finish(d)) == Some(d.result),
{
}

/// An event that a check does not wait for leaves it where it is, and what is to
/// be done stays to be done.
pub proof fn law_check_ignores_the_unasked(
    record: RecordMode,
    repo: PathView,
    s: AotCheck<MetaView>,
    e: AotCheckReplyView,
)
    requires
        !(s is AwaitDirectory && e is DirectoryCreated),
        !(s is AwaitCacheFile && e is Found),
        !(s is AwaitMetaFile && e is Found),
        !(s is AwaitMeta && e is MetaRead),
        !(s is AwaitCurrent && e is MetaBuilt),
    ensures
        check_step(record, repo, s, e).0 == s,
        check_step(record, repo, s, e).1 == check_request(repo, s),
        s is Finished ==> check_request(repo, s) is Rest,
{
}

/// The view of a check, of its actions and of its decision is the same over views.
pub proof fn law_check_view(p: FilePath, d: Decision, m: AotMeta)
    ensures
        AotCheckAction::<FilePath, Decision>::CreateDirectory(p)@ == AotCheckAction::<
            PathView,
            DecisionView,
        >::CreateDirectory(p@),
        AotCheckAction::<FilePath, Decision>::LookFor(p)@ == AotCheckAction::<
            PathView,
            DecisionView,
        >::LookFor(p@),
        AotCheckAction::<FilePath, Decision>::ReadMeta(p)@ == AotCheckAction::<
            PathView,
            DecisionView,
        >::ReadMeta(p@),
        AotCheckAction::<FilePath, Decision>::BuildMeta@ is BuildMeta,
        AotCheckAction::<FilePath, Decision>::Finish(d)@ == AotCheckAction::<
            PathView,
            DecisionView,
        >::Finish(d@),
        AotCheckAction::<FilePath, Decision>::Rest@ is Rest,
        AotCheck::<AotMeta>::AwaitDirectory@ is AwaitDirectory,
        AotCheck::<AotMeta>::AwaitCacheFile@ is AwaitCacheFile,
        AotCheck::<AotMeta>::AwaitMetaFile@ is AwaitMetaFile,
        AotCheck::<AotMeta>::AwaitMeta@ is AwaitMeta,
        AotCheck::<AotMeta>::AwaitCurrent(m)@ == AotCheck::<MetaView>::AwaitCurrent(m@),
        AotCheck::<AotMeta>::Finished@ is Finished,
        d@.result == seen(d.result),
        d.notice is None <==> d@.notice is None,
        d.notice matches Some(t) ==> d@.notice == Some(t@),
{
}

/// A run that goes without a cache does so whether or not there is one. A cache
/// that is not valid is never used, and where there is none none is used.
pub proof fn law_decisions(record: RecordMode, valid: bool)
    ensures
        decision_without_cache(RecordMode::NoAot) == silent(Ok(AotCacheAction::NoCache)),
        decision_with_cache(RecordMode::NoAot, valid) == silent(Ok(AotCacheAction::NoCache)),
        decision_without_cache(record).result != Ok::<AotCacheAction, ErrorView>(
            AotCacheAction::Use,
        ),
        decision_with_cache(record, valid).result == Ok::<AotCacheAction, ErrorView>(
            AotCacheAction::Use,
        ) ==> valid,
{
}

} // verus!
