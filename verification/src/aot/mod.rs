//! The AOT cache: whether a run uses it, records it, or goes without it.

pub mod create;
pub mod laws;
pub mod logs;
pub mod meta;
pub mod record;
pub mod threads;

use crate::aot::meta::{cache_dir, cache_file, meta_file, meta_of, AotMeta, MetaView};
use crate::args::RecordMode;
use crate::errors::{
    error_in, keeps_trace, seen, wrapped_error, Error, ErrorView, ONLY_USE_AOT_FAILED_EXIT_CODE,
};
use crate::launcher::{AotCacheAction, Launcher};
use crate::path::{FilePath, PathView};
use crate::util::fs::create_directory;
use vstd::prelude::*;

verus! {

/// What was decided on the cache, and what the user is told of it.
#[derive(Debug, PartialEq, Eq)]
pub struct Decision {
    pub notice: Option<String>,
    pub result: Result<AotCacheAction, Error>,
}

/// What a decision is, over sequences.
pub struct DecisionView {
    pub notice: Option<Seq<char>>,
    pub result: Result<AotCacheAction, ErrorView>,
}

impl View for Decision {
    type V = DecisionView;

    open spec fn view(&self) -> DecisionView {
        DecisionView {
            notice: match self.notice {
                Some(t) => Some(t@),
                None => None,
            },
            result: seen(self.result),
        }
    }
}

/// A decision without a notice.
pub open spec fn silent(result: Result<AotCacheAction, ErrorView>) -> DecisionView {
    DecisionView { notice: None, result }
}

/// The decision where there is no cache: record it, fail, or go without it.
pub open spec fn decision_without_cache(record: RecordMode) -> DecisionView {
    match record {
        RecordMode::Normal | RecordMode::OnlyRecord | RecordMode::ForceRecord => silent(
            Ok(AotCacheAction::Record),
        ),
        RecordMode::Check => silent(Err(ErrorView::Exit(1))),
        RecordMode::OnlyUse => DecisionView {
            notice: Some("No AOT cache found"@),
            result: Err(ErrorView::Exit(ONLY_USE_AOT_FAILED_EXIT_CODE)),
        },
        RecordMode::NoRecord | RecordMode::NoAot => silent(Ok(AotCacheAction::NoCache)),
    }
}

/// The decision where there is a cache, which is valid if it was recorded with
/// what the run has now.
pub open spec fn decision_with_cache(record: RecordMode, valid: bool) -> DecisionView {
    match record {
        RecordMode::Normal => silent(
            Ok(
                if valid {
                    AotCacheAction::Use
                } else {
                    AotCacheAction::Record
                },
            ),
        ),
        RecordMode::Check => silent(
            Err(
                ErrorView::Exit(
                    if valid {
                        0
                    } else {
                        1
                    },
                ),
            ),
        ),
        RecordMode::OnlyUse => if valid {
            silent(Ok(AotCacheAction::Use))
        } else {
            DecisionView {
                notice: Some("AOT cache is invalid"@),
                result: Err(ErrorView::Exit(ONLY_USE_AOT_FAILED_EXIT_CODE)),
            }
        },
        RecordMode::NoRecord => silent(
            Ok(
                if valid {
                    AotCacheAction::Use
                } else {
                    AotCacheAction::NoCache
                },
            ),
        ),
        RecordMode::OnlyRecord => if valid {
            silent(Err(ErrorView::Exit(0)))
        } else {
            silent(Ok(AotCacheAction::Record))
        },
        RecordMode::ForceRecord => silent(Ok(AotCacheAction::Record)),
        RecordMode::NoAot => silent(Ok(AotCacheAction::NoCache)),
    }
}

fn quiet(result: Result<AotCacheAction, Error>) -> (r: Decision)
    ensures
        r@ == silent(seen(result)),
        r.result == result,
{
    Decision { notice: None, result }
}

/// Decides where there is no cache.
pub fn decide_without_cache(record: RecordMode) -> (r: Decision)
    ensures
        r@ == decision_without_cache(record),
{
    match record {
        RecordMode::Normal | RecordMode::OnlyRecord | RecordMode::ForceRecord => quiet(
            Ok(AotCacheAction::Record),
        ),
        RecordMode::Check => quiet(Err(Error::Exit(1))),
        RecordMode::OnlyUse => Decision {
            notice: Some("No AOT cache found".to_string()),
            result: Err(Error::Exit(ONLY_USE_AOT_FAILED_EXIT_CODE)),
        },
        RecordMode::NoRecord | RecordMode::NoAot => quiet(Ok(AotCacheAction::NoCache)),
    }
}

/// Decides where there is a cache that was recorded with `saved`, in a run that
/// has `current`.
pub fn decide_with_cache(record: RecordMode, current: &AotMeta, saved: &AotMeta) -> (r: Decision)
    ensures
        r@ == decision_with_cache(record, current@ == saved@),
{
    let valid = *current == *saved;
    match record {
        RecordMode::Normal => {
            if valid {
                quiet(Ok(AotCacheAction::Use))
            } else {
                quiet(Ok(AotCacheAction::Record))
            }
        },
        RecordMode::Check => {
            let code: u8 = if valid {
                0
            } else {
                1
            };
            quiet(Err(Error::Exit(code)))
        },
        RecordMode::OnlyUse => {
            if !valid {
                Decision {
                    notice: Some("AOT cache is invalid".to_string()),
                    result: Err(Error::Exit(ONLY_USE_AOT_FAILED_EXIT_CODE)),
                }
            } else {
                quiet(Ok(AotCacheAction::Use))
            }
        },
        RecordMode::NoRecord => {
            if !valid {
                quiet(Ok(AotCacheAction::NoCache))
            } else {
                quiet(Ok(AotCacheAction::Use))
            }
        },
        RecordMode::OnlyRecord => {
            if valid {
                quiet(Err(Error::Exit(0)))
            } else {
                quiet(Ok(AotCacheAction::Record))
            }
        },
        RecordMode::ForceRecord => quiet(Ok(AotCacheAction::Record)),
        RecordMode::NoAot => quiet(Ok(AotCacheAction::NoCache)),
    }
}

/// How far the check of the cache has come. `M` is meta data.
#[derive(Debug, PartialEq, Eq)]
pub enum AotCheck<M> {
    AwaitDirectory,
    AwaitCacheFile,
    AwaitMetaFile,
    AwaitMeta,
    /// The meta data that was saved is known, that of the run is awaited.
    AwaitCurrent(M),
    Finished,
}

/// What is to be done next. `P` is a path, `D` a decision.
#[derive(Debug, PartialEq, Eq)]
pub enum AotCheckAction<P, D> {
    /// Create the directory with its parents.
    CreateDirectory(P),
    /// Look whether the file exists.
    LookFor(P),
    /// Read the file.
    ReadMeta(P),
    /// Collect the meta data of the run.
    BuildMeta,
    /// The check is over.
    Finish(D),
    /// There is nothing more to do.
    Rest,
}

/// What came of what was to be done. `U` is the outcome of creating, `B` that
/// of reading, `M` that of collecting.
#[derive(Debug, PartialEq, Eq)]
pub enum AotCheckEvent<U, B, M> {
    DirectoryCreated(U),
    Found(bool),
    MetaRead(B),
    MetaBuilt(M),
}

/// An event of a check.
pub type AotCheckReply = AotCheckEvent<
    Result<(), Error>,
    Result<Vec<u8>, Error>,
    Result<AotMeta, Error>,
>;

/// What an event is, over sequences.
pub type AotCheckReplyView = AotCheckEvent<
    Result<(), ErrorView>,
    Result<Seq<u8>, ErrorView>,
    Result<MetaView, ErrorView>,
>;

/// What an action is, over sequences.
pub type AotCheckActionView = AotCheckAction<PathView, DecisionView>;

/// The view of an event.
pub open spec fn reply_view(e: AotCheckReply) -> AotCheckReplyView {
    match e {
        AotCheckEvent::DirectoryCreated(r) => AotCheckEvent::DirectoryCreated(seen(r)),
        AotCheckEvent::Found(b) => AotCheckEvent::Found(b),
        AotCheckEvent::MetaRead(r) => AotCheckEvent::MetaRead(
            match r {
                Ok(bytes) => Ok(bytes@),
                Err(e) => Err(e@),
            },
        ),
        AotCheckEvent::MetaBuilt(r) => AotCheckEvent::MetaBuilt(
            match r {
                Ok(m) => Ok(m@),
                Err(e) => Err(e@),
            },
        ),
    }
}

/// The error that an event brings.
pub open spec fn check_error(e: AotCheckReply) -> Option<Error> {
    match e {
        AotCheckEvent::DirectoryCreated(r) => error_in(r),
        AotCheckEvent::Found(_) => None,
        AotCheckEvent::MetaRead(r) => error_in(r),
        AotCheckEvent::MetaBuilt(r) => error_in(r),
    }
}

/// What a check comes to, at its end.
pub open spec fn check_end(a: AotCheckAction<FilePath, Decision>) -> Option<
    Result<AotCacheAction, Error>,
> {
    match a {
        AotCheckAction::Finish(d) => Some(d.result),
        _ => None,
    }
}

impl View for AotCheck<AotMeta> {
    type V = AotCheck<MetaView>;

    open spec fn view(&self) -> AotCheck<MetaView> {
        match *self {
            AotCheck::AwaitDirectory => AotCheck::AwaitDirectory,
            AotCheck::AwaitCacheFile => AotCheck::AwaitCacheFile,
            AotCheck::AwaitMetaFile => AotCheck::AwaitMetaFile,
            AotCheck::AwaitMeta => AotCheck::AwaitMeta,
            AotCheck::AwaitCurrent(m) => AotCheck::AwaitCurrent(m@),
            AotCheck::Finished => AotCheck::Finished,
        }
    }
}

impl View for AotCheckAction<FilePath, Decision> {
    type V = AotCheckActionView;

    open spec fn view(&self) -> AotCheckActionView {
        match *self {
            AotCheckAction::CreateDirectory(p) => AotCheckAction::CreateDirectory(p@),
            AotCheckAction::LookFor(p) => AotCheckAction::LookFor(p@),
            AotCheckAction::ReadMeta(p) => AotCheckAction::ReadMeta(p@),
            AotCheckAction::BuildMeta => AotCheckAction::BuildMeta,
            AotCheckAction::Finish(d) => AotCheckAction::Finish(d@),
            AotCheckAction::Rest => AotCheckAction::Rest,
        }
    }
}

/// What is to be done in a state, in the repository `repo`.
pub open spec fn check_request(repo: PathView, s: AotCheck<MetaView>) -> AotCheckActionView {
    match s {
        AotCheck::AwaitDirectory => AotCheckAction::CreateDirectory(cache_dir(repo)),
        AotCheck::AwaitCacheFile => AotCheckAction::LookFor(cache_file(repo)),
        AotCheck::AwaitMetaFile => AotCheckAction::LookFor(meta_file(repo)),
        AotCheck::AwaitMeta => AotCheckAction::ReadMeta(meta_file(repo)),
        AotCheck::AwaitCurrent(_) => AotCheckAction::BuildMeta,
        AotCheck::Finished => AotCheckAction::Rest,
    }
}

/// The step to a state in which there is more to be done.
pub open spec fn to_state(repo: PathView, s: AotCheck<MetaView>) -> (
    AotCheck<MetaView>,
    AotCheckActionView,
) {
    (s, check_request(repo, s))
}

/// The step to the end.
pub open spec fn to_end(d: DecisionView) -> (AotCheck<MetaView>, AotCheckActionView) {
    (AotCheck::Finished, AotCheckAction::Finish(d))
}

/// Where a check begins. A run that is to go without a cache needs nothing.
pub open spec fn check_start(record: RecordMode, repo: PathView) -> (
    AotCheck<MetaView>,
    AotCheckActionView,
) {
    if record == RecordMode::NoAot {
        to_end(silent(Ok(AotCacheAction::NoCache)))
    } else {
        to_state(repo, AotCheck::AwaitDirectory)
    }
}

/// The step that a check takes on an event. What was not asked for changes
/// nothing.
pub open spec fn check_step(
    record: RecordMode,
    repo: PathView,
    s: AotCheck<MetaView>,
    e: AotCheckReplyView,
) -> (AotCheck<MetaView>, AotCheckActionView) {
    match (s, e) {
        (AotCheck::AwaitDirectory, AotCheckEvent::DirectoryCreated(Ok(_))) => to_state(
            repo,
            AotCheck::AwaitCacheFile,
        ),
        (AotCheck::AwaitDirectory, AotCheckEvent::DirectoryCreated(Err(cause))) => to_end(
            silent(
                Err(
                    wrapped_error(
                        "Failed to create directory: "@ + cache_dir(repo).shown(),
                        cause,
                    ),
                ),
            ),
        ),
        (AotCheck::AwaitCacheFile, AotCheckEvent::Found(true)) => to_state(
            repo,
            AotCheck::AwaitMetaFile,
        ),
        (AotCheck::AwaitMetaFile, AotCheckEvent::Found(true)) => to_state(
            repo,
            AotCheck::AwaitMeta,
        ),
        (AotCheck::AwaitCacheFile, AotCheckEvent::Found(false)) => to_end(
            decision_without_cache(record),
        ),
        (AotCheck::AwaitMetaFile, AotCheckEvent::Found(false)) => to_end(
            decision_without_cache(record),
        ),
        (AotCheck::AwaitMeta, AotCheckEvent::MetaRead(Ok(bytes))) => match meta_of(bytes) {
            Some(saved) => to_state(repo, AotCheck::AwaitCurrent(saved)),
            None => to_end(decision_without_cache(record)),
        },
        (AotCheck::AwaitMeta, AotCheckEvent::MetaRead(Err(cause))) => to_end(
            silent(
                Err(
                    wrapped_error(
                        "Failed to read AOT meta file: "@ + meta_file(repo).shown(),
                        cause,
                    ),
                ),
            ),
        ),
        (AotCheck::AwaitCurrent(saved), AotCheckEvent::MetaBuilt(Ok(current))) => to_end(
            decision_with_cache(record, current == saved),
        ),
        (AotCheck::AwaitCurrent(_), AotCheckEvent::MetaBuilt(Err(cause))) => to_end(
            silent(Err(cause)),
        ),
        _ => to_state(repo, s),
    }
}

/// Begins to check the options on the cache.
pub fn check_aot_opt(launcher: &Launcher) -> (r: (
    AotCheck<AotMeta>,
    AotCheckAction<FilePath, Decision>,
))
    ensures
        (r.0@, r.1@) == check_start(launcher.record, launcher.repo_dir@),
{
    if launcher.record == RecordMode::NoAot {
        return (
            AotCheck::Finished,
            AotCheckAction::Finish(quiet(Ok(AotCacheAction::NoCache))),
        );
    }
    let s = AotCheck::AwaitDirectory;
    let a = s.request(launcher);
    (s, a)
}

impl AotCheck<AotMeta> {
    /// What is to be done next.
    pub fn request(&self, launcher: &Launcher) -> (r: AotCheckAction<FilePath, Decision>)
        ensures
            r@ == check_request(launcher.repo_dir@, self@),
    {
        match self {
            AotCheck::AwaitDirectory => {
                let cache = AotMeta::aot_cache_file(&launcher.repo_dir);
                let dir = cache.parent();
                assert(dir@.names =~= cache_dir(launcher.repo_dir@).names);
                AotCheckAction::CreateDirectory(dir)
            },
            AotCheck::AwaitCacheFile => AotCheckAction::LookFor(
                AotMeta::aot_cache_file(&launcher.repo_dir),
            ),
            AotCheck::AwaitMetaFile => AotCheckAction::LookFor(
                AotMeta::aot_meta_file(&launcher.repo_dir),
            ),
            AotCheck::AwaitMeta => AotCheckAction::ReadMeta(
                AotMeta::aot_meta_file(&launcher.repo_dir),
            ),
            AotCheck::AwaitCurrent(_) => AotCheckAction::BuildMeta,
            AotCheck::Finished => AotCheckAction::Rest,
        }
    }

    /// Goes on with what came of the last action.
    pub fn next(self, launcher: &Launcher, event: AotCheckReply) -> (r: (
        Self,
        AotCheckAction<FilePath, Decision>,
    ))
        ensures
            (r.0@, r.1@) == check_step(
                launcher.record,
                launcher.repo_dir@,
                self@,
                reply_view(event),
            ),
            keeps_trace(check_error(event), check_end(r.1)),
    {
        match (self, event) {
            (AotCheck::AwaitDirectory, AotCheckEvent::DirectoryCreated(created)) => {
                let cache = AotMeta::aot_cache_file(&launcher.repo_dir);
                let dir = cache.parent();
                assert(dir@.names =~= cache_dir(launcher.repo_dir@).names);
                match create_directory(&dir, created) {
                    Ok(()) => go(AotCheck::AwaitCacheFile, launcher),
                    Err(e) => end(quiet(Err(e))),
                }
            },
            (AotCheck::AwaitCacheFile, AotCheckEvent::Found(found)) => {
                if found {
                    go(AotCheck::AwaitMetaFile, launcher)
                } else {
                    end(decide_without_cache(launcher.record))
                }
            },
            (AotCheck::AwaitMetaFile, AotCheckEvent::Found(found)) => {
                if found {
                    go(AotCheck::AwaitMeta, launcher)
                } else {
                    end(decide_without_cache(launcher.record))
                }
            },
            (AotCheck::AwaitMeta, AotCheckEvent::MetaRead(content)) => {
                let file = AotMeta::aot_meta_file(&launcher.repo_dir);
                match AotMeta::read(&file, content) {
                    Ok(Some(saved)) => go(AotCheck::AwaitCurrent(saved), launcher),
                    Ok(None) => end(decide_without_cache(launcher.record)),
                    Err(e) => end(quiet(Err(e))),
                }
            },
            (AotCheck::AwaitCurrent(saved), AotCheckEvent::MetaBuilt(built)) => match built {
                Ok(current) => end(decide_with_cache(launcher.record, &current, &saved)),
                Err(e) => end(quiet(Err(e))),
            },
            (s, _) => go(s, launcher),
        }
    }
}

fn go(s: AotCheck<AotMeta>, launcher: &Launcher) -> (r: (
    AotCheck<AotMeta>,
    AotCheckAction<FilePath, Decision>,
))
    ensures
        (r.0@, r.1@) == to_state(launcher.repo_dir@, s@),
        check_end(r.1) is None,
{
    let a = s.request(launcher);
    (s, a)
}

fn end(d: Decision) -> (r: (AotCheck<AotMeta>, AotCheckAction<FilePath, Decision>))
    ensures
        (r.0@, r.1@) == to_end(d@),
        check_end(r.1) == Some(d.result),
{
    (AotCheck::Finished, AotCheckAction::Finish(d))
}

} // verus!
