//! What is saved beside an AOT cache in order to tell later whether it is valid.

use crate::errors::{
    error_in, generic_error, in_context, keeps_trace, seen, wrapped_error, Error, ErrorView,
    WithContext,
};
use crate::outside::{
    postcard_bytes, postcard_decode, postcard_encode, postcard_parts, sha256_of,
};
use crate::launcher::{append_texts, Launcher};
use crate::path::{
    law_names_are_written, law_parent_of_child, law_path_from_text, plain_name, takes_names,
    written_separator, FilePath, PathView, Platform,
};
use crate::text::{
    cat2, cat4, decode_lossy, is_space, law_readable, law_trimmed, readable, same, trim, trimmed,
};
use crate::util::fs::{create_directory, file_hash, hash_outcome, read_trace, FileRead};
use crate::util::jni::{java_bin, java_program, law_java_program};
use vstd::prelude::*;
use vstd::string::*;
use vstd::utf8::encode_utf8;

verus! {

pub const AOT_CACHE_FILE: &'static str = "paper.aot";

pub const AOT_CONF_FILE: &'static str = "paper.aot.config";

pub const AOT_CACHE_META: &'static str = "paper.aot.meta";

/// The name under which new meta data is written before it takes the place of
/// the old.
pub const AOT_CACHE_META_TMP: &'static str = "paper.aot.meta.tmp";

/// What a cache was recorded with.
#[derive(Debug)]
pub struct AotMeta {
    /// What the virtual machine says of its version.
    pub jvm_ident: String,
    /// The arguments of the virtual machine.
    pub jvm_args: Vec<String>,
    /// The digests of the files on the class path.
    pub classpath: Vec<[u8; 32]>,
    /// The digest of the cache.
    pub aot_cache_hash: [u8; 32],
}

/// What an `AotMeta` is, over sequences.
#[verifier::ext_equal]
pub struct MetaView {
    pub jvm_ident: Seq<char>,
    pub jvm_args: Seq<Seq<char>>,
    pub classpath: Seq<Seq<u8>>,
    pub aot_cache_hash: Seq<u8>,
}

impl View for AotMeta {
    type V = MetaView;

    open spec fn view(&self) -> MetaView {
        MetaView {
            jvm_ident: self.jvm_ident@,
            jvm_args: self.jvm_args.deep_view(),
            classpath: self.classpath.deep_view(),
            aot_cache_hash: self.aot_cache_hash@,
        }
    }
}

fn same_texts(a: &Vec<String>, b: &Vec<String>) -> (r: bool)
    ensures
        r == (a.deep_view() == b.deep_view()),
{
    if a.len() != b.len() {
        assert(a.deep_view().len() != b.deep_view().len());
        return false;
    }
    let mut i: usize = 0;
    while i < a.len()
        invariant
            i <= a.len(),
            a.len() == b.len(),
            forall|j: int| 0 <= j < i ==> a@[j]@ == b@[j]@,
        decreases a.len() - i,
    {
        if !same(a[i].as_str(), b[i].as_str()) {
            assert(a.deep_view()[i as int] != b.deep_view()[i as int]);
            return false;
        }
        i += 1;
    }
    assert(a.deep_view() =~= b.deep_view());
    true
}

fn same_hash(a: &[u8; 32], b: &[u8; 32]) -> (r: bool)
    ensures
        r == (a@ == b@),
{
    let mut i: usize = 0;
    while i < 32
        invariant
            i <= 32,
            forall|j: int| 0 <= j < i ==> a@[j] == b@[j],
        decreases 32 - i,
    {
        if a[i] != b[i] {
            return false;
        }
        i += 1;
    }
    assert(a@ =~= b@);
    true
}

fn same_hashes(a: &Vec<[u8; 32]>, b: &Vec<[u8; 32]>) -> (r: bool)
    ensures
        r == (a.deep_view() == b.deep_view()),
{
    if a.len() != b.len() {
        assert(a.deep_view().len() != b.deep_view().len());
        return false;
    }
    let mut i: usize = 0;
    while i < a.len()
        invariant
            i <= a.len(),
            a.len() == b.len(),
            forall|j: int| 0 <= j < i ==> a@[j]@ == b@[j]@,
        decreases a.len() - i,
    {
        assert(a.deep_view()[i as int] =~= a@[i as int]@);
        assert(b.deep_view()[i as int] =~= b@[i as int]@);
        if !same_hash(&a[i], &b[i]) {
            return false;
        }
        i += 1;
    }
    assert forall|j: int| 0 <= j < a.len() implies a.deep_view()[j] == b.deep_view()[j] by {
        assert(a@[j]@ == b@[j]@);
        assert(a.deep_view()[j] =~= a@[j]@);
        assert(b.deep_view()[j] =~= b@[j]@);
    }
    assert(a.deep_view() =~= b.deep_view());
    true
}

/// Two are equal where everything that they hold is equal.
impl PartialEq for AotMeta {
    fn eq(&self, other: &Self) -> (r: bool) {
        same(self.jvm_ident.as_str(), other.jvm_ident.as_str()) && same_texts(
            &self.jvm_args,
            &other.jvm_args,
        ) && same_hashes(&self.classpath, &other.classpath) && same_hash(
            &self.aot_cache_hash,
            &other.aot_cache_hash,
        )
    }
}

impl vstd::std_specs::cmp::PartialEqSpecImpl for AotMeta {
    open spec fn obeys_eq_spec() -> bool {
        true
    }

    open spec fn eq_spec(&self, other: &Self) -> bool {
        self@ == other@
    }
}

impl Eq for AotMeta {

}

/// The directory of the cache, in the directory of the repository.
pub open spec fn cache_dir(dir: PathView) -> PathView {
    dir.child(".paper"@).child("cache"@)
}

/// The file of the cache.
pub open spec fn cache_file(dir: PathView) -> PathView {
    cache_dir(dir).child(AOT_CACHE_FILE@)
}

/// The file of the configuration that a cache is created from.
pub open spec fn conf_file(dir: PathView) -> PathView {
    cache_dir(dir).child(AOT_CONF_FILE@)
}

/// The file of the meta data.
pub open spec fn meta_file(dir: PathView) -> PathView {
    cache_dir(dir).child(AOT_CACHE_META@)
}

/// The names of the cache's files are names of one component each.
pub proof fn lemma_names_plain()
    ensures
        plain_name(".paper"@),
        plain_name("cache"@),
        plain_name(AOT_CACHE_FILE@),
        plain_name(AOT_CONF_FILE@),
        plain_name(AOT_CACHE_META@),
        plain_name(AOT_CACHE_META_TMP@),
{
    reveal_strlit(".paper");
    assert(".paper"@ =~= seq!['.', 'p', 'a', 'p', 'e', 'r']);
    reveal_strlit("cache");
    assert("cache"@ =~= seq!['c', 'a', 'c', 'h', 'e']);
    reveal_strlit("paper.aot");
    assert("paper.aot"@ =~= seq!['p', 'a', 'p', 'e', 'r', '.', 'a', 'o', 't']);
    reveal_strlit("paper.aot.config");
    assert("paper.aot.config"@ =~= seq!['p', 'a', 'p', 'e', 'r', '.', 'a', 'o', 't', '.', 'c', 'o', 'n', 'f', 'i', 'g']);
    reveal_strlit("paper.aot.meta");
    assert("paper.aot.meta"@ =~= seq!['p', 'a', 'p', 'e', 'r', '.', 'a', 'o', 't', '.', 'm', 'e', 't', 'a']);
    reveal_strlit("paper.aot.meta.tmp");
    assert("paper.aot.meta.tmp"@ =~= seq!['p', 'a', 'p', 'e', 'r', '.', 'a', 'o', 't', '.', 'm', 'e', 't', 'a', '.', 't', 'm', 'p']);
}

impl AotMeta {
    /// The files of the cache and of its meta data.
    pub fn aot_files(dir: &FilePath) -> (r: (FilePath, FilePath))
        ensures
            r.0@ == cache_file(dir@),
            r.1@ == meta_file(dir@),
    {
        (AotMeta::aot_cache_file(dir), AotMeta::aot_meta_file(dir))
    }

    /// The file of the cache.
    pub fn aot_cache_file(dir: &FilePath) -> (r: FilePath)
        ensures
            r@ == cache_file(dir@),
    {
        proof {
            lemma_names_plain();
        }
        dir.child(".paper").child("cache").child(AOT_CACHE_FILE)
    }

    /// The file of the configuration that a cache is created from.
    pub fn aot_conf_file(dir: &FilePath) -> (r: FilePath)
        ensures
            r@ == conf_file(dir@),
    {
        proof {
            lemma_names_plain();
        }
        dir.child(".paper").child("cache").child(AOT_CONF_FILE)
    }

    /// The file of the meta data.
    pub fn aot_meta_file(dir: &FilePath) -> (r: FilePath)
        ensures
            r@ == meta_file(dir@),
    {
        proof {
            lemma_names_plain();
        }
        dir.child(".paper").child("cache").child(AOT_CACHE_META)
    }

    /// The program that is asked for the version of the virtual machine, with
    /// the argument `-Xinternalversion`.
    pub fn ident_program(launcher: &Launcher) -> (r: FilePath)
        ensures
            r@ == ident_program(*launcher),
    {
        let java_home = FilePath::from_text(
            launcher.repo_dir.platform(),
            launcher.java_home.as_str(),
        );
        java_bin(&java_home)
    }

    /// Begins to collect the meta data of a run from what the virtual machine
    /// said of its version.
    pub fn build(launcher: &Launcher, output: Result<Vec<u8>, Error>) -> (r: Result<
        MetaBuild,
        Error,
    >)
        ensures
            match output {
                Ok(bytes) => {
                    &&& r matches Ok(b)
                    &&& b.ident() == trimmed(readable(bytes@))
                    &&& b.hashes() == Seq::<Seq<u8>>::empty()
                },
                Err(e) => r matches Err(out) && out@ == ident_failure(
                    ident_program(*launcher),
                    e@,
                ) && out.trace() == e.trace(),
            },
    {
        match output {
            Ok(bytes) => {
                let text = decode_lossy(bytes.as_slice());
                let b = MetaBuild { jvm_ident: trim(text.as_str()), classpath: Vec::new() };
                assert(b.hashes() =~= Seq::<Seq<u8>>::empty());
                Ok(b)
            },
            Err(e) => {
                let java = AotMeta::ident_program(launcher);
                let shown = java.display();
                let context = cat4(
                    "Failed to execute 'java -Xinternalversion' command",
                    " (",
                    shown.as_str(),
                    ")",
                );
                Err(Error::wrap(context, e))
            },
        }
    }

    /// Reads meta data from the content of its file. Content that is not meta
    /// data counts as none.
    pub fn read(aot_meta_file: &FilePath, content: Result<Vec<u8>, Error>) -> (r: Result<
        Option<Self>,
        Error,
    >)
        ensures
            match content {
                Ok(bytes) => {
                    &&& r matches Ok(saved)
                    &&& saved is Some <==> meta_of(bytes@) is Some
                    &&& saved matches Some(m) ==> meta_of(bytes@) == Some(m@)
                },
                Err(e) => r matches Err(out) && out@ == wrapped_error(
                    "Failed to read AOT meta file: "@ + aot_meta_file@.shown(),
                    e@,
                ) && out.trace() == e.trace(),
            },
    {
        let context = cat2("Failed to read AOT meta file: ", aot_meta_file.display().as_str());
        match content.err_ctx(context) {
            Err(e) => Err(e),
            Ok(bytes) => match postcard_decode(bytes.as_slice()) {
                None => Ok(None),
                Some((jvm_ident, jvm_args, classpath, aot_cache_hash)) => Ok(
                    Some(AotMeta { jvm_ident, jvm_args, classpath, aot_cache_hash }),
                ),
            },
        }
    }

    /// The content of the file of this meta data.
    pub fn to_bytes(&self) -> (r: Result<Vec<u8>, Error>)
        ensures
            r matches Ok(bytes) && bytes@ == bytes_of(self@) && meta_of(bytes@) == Some(self@),
    {
        match postcard_encode(
            &self.jvm_ident,
            &self.jvm_args,
            &self.classpath,
            &self.aot_cache_hash,
        ) {
            Ok(bytes) => Ok(bytes),
            Err(detail) => Err(
                Error::wrap("Failed to serialize AOT meta file", Error::postcard(detail)),
            ),
        }
    }

    /// Begins to write meta data to its file. What is written is what `read`
    /// reads as this meta data.
    pub fn write(&self, aot_meta_file: &FilePath) -> (r: Result<
        (MetaWrite, WriteAction<FilePath, Vec<u8>, String, Result<(), Error>>),
        Error,
    >)
        ensures
            r matches Ok((w, a)) && (w@, a@) == write_start(bytes_of(self@), aot_meta_file@)
                && meta_of(w@.bytes) == Some(self@),
    {
        let bytes = match self.to_bytes() {
            Ok(bytes) => bytes,
            Err(e) => return Err(e),
        };
        let target = aot_meta_file.copy();
        if aot_meta_file.is_child() {
            proof {
                lemma_names_plain();
            }
            let dir = aot_meta_file.parent();
            let tmp = dir.child(AOT_CACHE_META_TMP);
            Ok(MetaWrite { bytes, target, state: WriteState::AwaitPlace }.into_directory(dir, tmp))
        } else {
            let action = WriteAction::Locate(aot_meta_file.copy(), AOT_CACHE_META_TMP.to_string());
            Ok((MetaWrite { bytes, target, state: WriteState::AwaitPlace }, action))
        }
    }
}

/// The program that is asked for the version of the virtual machine.
pub open spec fn ident_program(launcher: Launcher) -> PathView {
    java_program(
        PathView {
            platform: launcher.repo_dir@.platform,
            base: encode_utf8(launcher.java_home@),
            names: Seq::empty(),
        },
    )
}

/// The error of asking for the version in vain.
pub open spec fn ident_failure(java: PathView, cause: ErrorView) -> ErrorView {
    wrapped_error(
        "Failed to execute 'java -Xinternalversion' command"@ + " ("@ + java.shown() + ")"@,
        cause,
    )
}

/// The content of the file of `meta`.
pub open spec fn bytes_of(meta: MetaView) -> Seq<u8> {
    postcard_bytes(meta.jvm_ident, meta.jvm_args, meta.classpath, meta.aot_cache_hash)
}

/// The meta data in a file with this content.
pub open spec fn meta_of(bytes: Seq<u8>) -> Option<MetaView> {
    match postcard_parts(usize::BITS, bytes) {
        Some((jvm_ident, jvm_args, classpath, aot_cache_hash)) => Some(
            MetaView { jvm_ident, jvm_args, classpath, aot_cache_hash },
        ),
        None => None,
    }
}

/// The digest of a file on the class path, or why there is none. `read` is what
/// came of reading it, and `None` where it does not exist.
pub open spec fn probe_outcome(path: PathView, read: Option<FileRead>) -> Result<
    Seq<u8>,
    ErrorView,
> {
    match read {
        None => Err(
            generic_error(
                "Cannot compute AOT info: classpath entry does not exist: "@ + path.shown(),
            ),
        ),
        Some(read) => hash_outcome(path.shown(), read),
    }
}

/// Meta data that is being collected.
#[derive(Debug, PartialEq, Eq)]
pub struct MetaBuild {
    jvm_ident: String,
    classpath: Vec<[u8; 32]>,
}

/// What is to be done next. `P` is a path.
#[derive(Debug, PartialEq, Eq)]
pub enum MetaRequest<P> {
    /// Read the file on the class path, if it exists.
    Probe(P),
    /// Read the file of the cache.
    ReadCache(P),
}

/// What came of what was to be done.
#[derive(Debug, PartialEq, Eq)]
pub enum MetaEvent {
    /// `None` where the file does not exist.
    Probed(Option<FileRead>),
    CacheRead(FileRead),
}

/// A step of collecting.
#[derive(Debug, PartialEq, Eq)]
pub enum MetaStep {
    /// There is more to be done.
    More(MetaBuild),
    /// Collecting is over.
    Done(Result<AotMeta, Error>),
}

/// What a step is, over sequences: what the virtual machine said of its
/// version, and the digests so far; or the outcome.
pub enum MetaStepView {
    More(Seq<char>, Seq<Seq<u8>>),
    Done(Result<MetaView, ErrorView>),
}

impl View for MetaStep {
    type V = MetaStepView;

    open spec fn view(&self) -> MetaStepView {
        match *self {
            MetaStep::More(b) => MetaStepView::More(b.ident(), b.hashes()),
            MetaStep::Done(Ok(m)) => MetaStepView::Done(Ok(m@)),
            MetaStep::Done(Err(e)) => MetaStepView::Done(Err(e@)),
        }
    }
}

/// What is to be done where these digests are known: the files on the class
/// path come first, in order, and then the cache.
pub open spec fn build_request(l: Launcher, hashes: Seq<Seq<u8>>) -> MetaRequest<PathView> {
    if hashes.len() < l.classpath@.len() {
        MetaRequest::Probe(l.classpath@[hashes.len() as int]@)
    } else {
        MetaRequest::ReadCache(l.aot_files.cache@)
    }
}

/// The step that collecting takes on an event. What was not asked for changes
/// nothing.
pub open spec fn build_step(
    l: Launcher,
    ident: Seq<char>,
    hashes: Seq<Seq<u8>>,
    e: MetaEvent,
) -> MetaStepView {
    match (build_request(l, hashes), e) {
        (MetaRequest::Probe(path), MetaEvent::Probed(probe)) => match probe_outcome(path, probe) {
            Ok(hash) => MetaStepView::More(ident, hashes.push(hash)),
            Err(e) => MetaStepView::Done(Err(e)),
        },
        (MetaRequest::ReadCache(path), MetaEvent::CacheRead(read)) => match hash_outcome(
            path.shown(),
            read,
        ) {
            Ok(hash) => MetaStepView::Done(
                Ok(
                    MetaView {
                        jvm_ident: ident,
                        jvm_args: l.args.jvm.deep_view(),
                        classpath: hashes,
                        aot_cache_hash: hash,
                    },
                ),
            ),
            Err(e) => MetaStepView::Done(Err(e)),
        },
        _ => MetaStepView::More(ident, hashes),
    }
}

/// An error that comes of a file that was read has the backtrace of the read.
pub open spec fn keeps_read_trace(read: Option<FileRead>, step: MetaStep) -> bool {
    match (read, step) {
        (Some(read), MetaStep::Done(Err(e))) => e.trace() == read_trace(read),
        _ => true,
    }
}

impl View for MetaRequest<FilePath> {
    type V = MetaRequest<PathView>;

    open spec fn view(&self) -> MetaRequest<PathView> {
        match *self {
            MetaRequest::Probe(p) => MetaRequest::Probe(p@),
            MetaRequest::ReadCache(p) => MetaRequest::ReadCache(p@),
        }
    }
}

impl MetaBuild {
    /// What the virtual machine said of its version.
    pub closed spec fn ident(&self) -> Seq<char> {
        self.jvm_ident@
    }

    /// The digests so far.
    pub closed spec fn hashes(&self) -> Seq<Seq<u8>> {
        self.classpath.deep_view()
    }

    /// What is to be done next.
    pub fn request(&self, launcher: &Launcher) -> (r: MetaRequest<FilePath>)
        ensures
            r@ == build_request(*launcher, self.hashes()),
    {
        let at = self.classpath.len();
        assert(at == self.hashes().len());
        if at < launcher.classpath.len() {
            MetaRequest::Probe(launcher.classpath[at].copy())
        } else {
            MetaRequest::ReadCache(launcher.aot_files.cache.copy())
        }
    }

    fn add(self, path: &FilePath, probe: Option<FileRead>) -> (r: MetaStep)
        ensures
            r@ == match probe_outcome(path@, probe) {
                Ok(hash) => MetaStepView::More(self.ident(), self.hashes().push(hash)),
                Err(e) => MetaStepView::Done(Err(e)),
            },
            keeps_read_trace(probe, r),
    {
        match probe {
            None => {
                let shown = path.display();
                MetaStep::Done(
                    Err(
                        Error::generic(
                            cat2(
                                "Cannot compute AOT info: classpath entry does not exist: ",
                                shown.as_str(),
                            ),
                        ),
                    ),
                )
            },
            Some(read) => match file_hash(path, read) {
                Err(e) => MetaStep::Done(Err(e)),
                Ok(hash) => {
                    let mut next = self;
                    next.classpath.push(hash);
                    assert(hash.deep_view() =~= hash@);
                    assert(next.hashes() =~= self.hashes().push(hash@));
                    MetaStep::More(next)
                },
            },
        }
    }

    fn finish(self, launcher: &Launcher, aot_cache_hash: [u8; 32]) -> (r: AotMeta)
        ensures
            r@ == (MetaView {
                jvm_ident: self.ident(),
                jvm_args: launcher.args.jvm.deep_view(),
                classpath: self.hashes(),
                aot_cache_hash: aot_cache_hash@,
            }),
    {
        let mut jvm_args: Vec<String> = Vec::new();
        append_texts(&mut jvm_args, &launcher.args.jvm);
        assert(jvm_args.deep_view() =~= launcher.args.jvm.deep_view());
        AotMeta { jvm_ident: self.jvm_ident, jvm_args, classpath: self.classpath, aot_cache_hash }
    }

    /// Goes on with what came of the last request.
    pub fn next(self, launcher: &Launcher, event: MetaEvent) -> (r: MetaStep)
        ensures
            r@ == build_step(*launcher, self.ident(), self.hashes(), event),
            match event {
                MetaEvent::Probed(probe) => keeps_read_trace(probe, r),
                MetaEvent::CacheRead(read) => keeps_read_trace(Some(read), r),
            },
    {
        match (self.request(launcher), event) {
            (MetaRequest::Probe(path), MetaEvent::Probed(probe)) => self.add(&path, probe),
            (MetaRequest::ReadCache(path), MetaEvent::CacheRead(read)) => match file_hash(
                &path,
                read,
            ) {
                Ok(hash) => MetaStep::Done(Ok(self.finish(launcher, hash))),
                Err(e) => MetaStep::Done(Err(e)),
            },
            _ => MetaStep::More(self),
        }
    }
}

/// What collecting comes to where the probes of the class path are these: the
/// first that fails settles it, and otherwise the digests follow `hashes`.
pub open spec fn probes_outcome(
    paths: Seq<PathView>,
    probes: Seq<Option<FileRead>>,
    hashes: Seq<Seq<u8>>,
) -> Result<Seq<Seq<u8>>, ErrorView>
    decreases probes.len(),
{
    if probes.len() == 0 {
        Ok(hashes)
    } else {
        match probe_outcome(paths[0], probes[0]) {
            Ok(hash) => probes_outcome(
                paths.drop_first(),
                probes.drop_first(),
                hashes.push(hash),
            ),
            Err(e) => Err(e),
        }
    }
}

/// The meta data of a run in which the files on the class path gave `probes`
/// and the cache gave `cache`.
pub open spec fn meta_outcome(
    l: Launcher,
    ident: Seq<char>,
    probes: Seq<Option<FileRead>>,
    cache: FileRead,
) -> Result<MetaView, ErrorView> {
    match probes_outcome(l.classpath.deep_view(), probes, Seq::empty()) {
        Err(e) => Err(e),
        Ok(classpath) => match hash_outcome(l.aot_files.cache@.shown(), cache) {
            Err(e) => Err(e),
            Ok(hash) => Ok(
                MetaView {
                    jvm_ident: ident,
                    jvm_args: l.args.jvm.deep_view(),
                    classpath,
                    aot_cache_hash: hash,
                },
            ),
        },
    }
}

/// What collecting comes to within `steps` steps where each request is answered
/// with its probe, or with what the cache gave.
pub open spec fn build_run(
    l: Launcher,
    probes: Seq<Option<FileRead>>,
    cache: FileRead,
    at: MetaStepView,
    steps: nat,
) -> Option<Result<MetaView, ErrorView>>
    decreases steps,
{
    match at {
        MetaStepView::Done(r) => Some(r),
        MetaStepView::More(ident, hashes) => if steps == 0 {
            None
        } else {
            let event = match build_request(l, hashes) {
                MetaRequest::Probe(_) => MetaEvent::Probed(probes[hashes.len() as int]),
                MetaRequest::ReadCache(_) => MetaEvent::CacheRead(cache),
            };
            build_run(l, probes, cache, build_step(l, ident, hashes, event), (steps - 1) as nat)
        },
    }
}

proof fn lemma_build_from(
    l: Launcher,
    probes: Seq<Option<FileRead>>,
    cache: FileRead,
    ident: Seq<char>,
    hashes: Seq<Seq<u8>>,
)
    requires
        probes.len() == l.classpath@.len(),
        hashes.len() <= probes.len(),
    ensures
        build_run(
            l,
            probes,
            cache,
            MetaStepView::More(ident, hashes),
            (probes.len() - hashes.len() + 1) as nat,
        ) == Some(
            match probes_outcome(
                l.classpath.deep_view().skip(hashes.len() as int),
                probes.skip(hashes.len() as int),
                hashes,
            ) {
                Err(e) => Err(e),
                Ok(classpath) => match hash_outcome(l.aot_files.cache@.shown(), cache) {
                    Err(e) => Err(e),
                    Ok(hash) => Ok(
                        MetaView {
                            jvm_ident: ident,
                            jvm_args: l.args.jvm.deep_view(),
                            classpath,
                            aot_cache_hash: hash,
                        },
                    ),
                },
            },
        ),
    decreases probes.len() - hashes.len(),
{
    let at = hashes.len() as int;
    let paths = l.classpath.deep_view();
    reveal_with_fuel(build_run, 3);
    if at < probes.len() {
        assert(paths.skip(at)[0] == l.classpath@[at]@);
        assert(probes.skip(at)[0] == probes[at]);
        assert(paths.skip(at).drop_first() =~= paths.skip(at + 1));
        assert(probes.skip(at).drop_first() =~= probes.skip(at + 1));
        match probe_outcome(paths[at], probes[at]) {
            Ok(hash) => lemma_build_from(l, probes, cache, ident, hashes.push(hash)),
            Err(_) => {},
        }
    }
}

/// Collecting ends, after one reply for each file on the class path and one for
/// the cache at most, with the digests of all of them in the order of the class
/// path, or with the error of the first that has none.
pub proof fn law_build_ends(
    l: Launcher,
    ident: Seq<char>,
    probes: Seq<Option<FileRead>>,
    cache: FileRead,
)
    requires
        probes.len() == l.classpath@.len(),
    ensures
        build_run(
            l,
            probes,
            cache,
            MetaStepView::More(ident, Seq::empty()),
            probes.len() + 1,
        ) == Some(meta_outcome(l, ident, probes, cache)),
{
    lemma_build_from(l, probes, cache, ident, Seq::empty());
    assert(l.classpath.deep_view().skip(0) =~= l.classpath.deep_view());
    assert(probes.skip(0) =~= probes);
}

proof fn lemma_probes_succeed(
    paths: Seq<PathView>,
    contents: Seq<Seq<u8>>,
    probes: Seq<Option<FileRead>>,
    hashes: Seq<Seq<u8>>,
)
    requires
        paths.len() == contents.len() == probes.len(),
        forall|i: int|
            0 <= i < probes.len() ==> (#[trigger] probes[i] matches Some(FileRead::Content(data))
                && data@ == contents[i]),
    ensures
        probes_outcome(paths, probes, hashes) == Ok::<Seq<Seq<u8>>, ErrorView>(
            hashes + contents.map_values(|c: Seq<u8>| sha256_of(c)),
        ),
    decreases probes.len(),
{
    let digests = contents.map_values(|c: Seq<u8>| sha256_of(c));
    if probes.len() == 0 {
        assert(hashes + digests =~= hashes);
    } else {
        let rest = probes.drop_first();
        assert(probes[0] matches Some(FileRead::Content(data)) && data@ == contents[0]);
        assert forall|i: int| 0 <= i < rest.len() implies (#[trigger] rest[i] matches Some(
            FileRead::Content(data),
        ) && data@ == contents.drop_first()[i]) by {
            assert(rest[i] == probes[i + 1]);
        }
        lemma_probes_succeed(
            paths.drop_first(),
            contents.drop_first(),
            rest,
            hashes.push(sha256_of(contents[0])),
        );
        assert(hashes.push(sha256_of(contents[0])) + contents.drop_first().map_values(
            |c: Seq<u8>| sha256_of(c),
        ) =~= hashes + digests);
    }
}

/// Where every file on the class path and the cache can be read, collecting
/// comes to the digests of their contents, in the order of the class path.
pub proof fn law_meta_holds_digests(
    l: Launcher,
    ident: Seq<char>,
    contents: Seq<Seq<u8>>,
    probes: Seq<Option<FileRead>>,
    cache: FileRead,
)
    requires
        contents.len() == probes.len() == l.classpath@.len(),
        forall|i: int|
            0 <= i < probes.len() ==> (#[trigger] probes[i] matches Some(FileRead::Content(data))
                && data@ == contents[i]),
        cache is Content,
    ensures
        meta_outcome(l, ident, probes, cache) == Ok::<MetaView, ErrorView>(
            MetaView {
                jvm_ident: ident,
                jvm_args: l.args.jvm.deep_view(),
                classpath: contents.map_values(|c: Seq<u8>| sha256_of(c)),
                aot_cache_hash: sha256_of(cache->Content_0@),
            },
        ),
{
    lemma_probes_succeed(l.classpath.deep_view(), contents, probes, Seq::empty());
    assert(Seq::<Seq<u8>>::empty() + contents.map_values(|c: Seq<u8>| sha256_of(c))
        =~= contents.map_values(|c: Seq<u8>| sha256_of(c)));
}

/// How far writing has come. `P` is a path.
#[derive(Debug, PartialEq, Eq)]
pub enum WriteState<P> {
    AwaitPlace,
    AwaitDirectory { dir: P, tmp: P },
    AwaitContent { tmp: P },
    AwaitRename { tmp: P },
    Finished,
}

/// What is to be done next. `P` is a path, `B` content, `S` a name, `R` an
/// outcome.
#[derive(Debug, PartialEq, Eq)]
pub enum WriteAction<P, B, S, R> {
    /// Find the directory that holds the file, where there is one, and the path
    /// that has this name in place of the file's own.
    Locate(P, S),
    /// Create the directory with its parents.
    CreateDirectory(P),
    /// Write the content to the file.
    WriteContent(P, B),
    /// Put the first file in the place of the second.
    Rename(P, P),
    /// Writing is over.
    Finish(R),
    /// There is nothing more to do.
    Rest,
}

/// What came of what was to be done. `P` is a path, `E` an error.
#[derive(Debug, PartialEq, Eq)]
pub enum WriteEvent<P, E> {
    Located { parent: Option<P>, tmp: P },
    DirectoryCreated(Result<(), E>),
    ContentWritten(Result<(), E>),
    Renamed(Result<(), E>),
}

/// An event of writing.
pub type WriteReply = WriteEvent<FilePath, Error>;

/// What an event is, over sequences.
pub type WriteReplyView = WriteEvent<PathView, ErrorView>;

/// What an action is, over sequences.
pub type WriteActionView = WriteAction<PathView, Seq<u8>, Seq<char>, Result<(), ErrorView>>;

/// Meta data that is being written.
#[derive(Debug, PartialEq, Eq)]
pub struct MetaWrite {
    bytes: Vec<u8>,
    target: FilePath,
    state: WriteState<FilePath>,
}

/// What a `MetaWrite` is: the content, the file that it is for, and how far
/// writing has come.
pub struct WriteView {
    pub bytes: Seq<u8>,
    pub target: PathView,
    pub state: WriteState<PathView>,
}

impl View for WriteState<FilePath> {
    type V = WriteState<PathView>;

    open spec fn view(&self) -> WriteState<PathView> {
        match *self {
            WriteState::AwaitPlace => WriteState::AwaitPlace,
            WriteState::AwaitDirectory { dir, tmp } => WriteState::AwaitDirectory {
                dir: dir@,
                tmp: tmp@,
            },
            WriteState::AwaitContent { tmp } => WriteState::AwaitContent { tmp: tmp@ },
            WriteState::AwaitRename { tmp } => WriteState::AwaitRename { tmp: tmp@ },
            WriteState::Finished => WriteState::Finished,
        }
    }
}

impl View for MetaWrite {
    type V = WriteView;

    closed spec fn view(&self) -> WriteView {
        WriteView { bytes: self.bytes@, target: self.target@, state: self.state@ }
    }
}

impl View for WriteAction<FilePath, Vec<u8>, String, Result<(), Error>> {
    type V = WriteActionView;

    open spec fn view(&self) -> WriteActionView {
        match *self {
            WriteAction::Locate(p, name) => WriteAction::Locate(p@, name@),
            WriteAction::CreateDirectory(p) => WriteAction::CreateDirectory(p@),
            WriteAction::WriteContent(p, bytes) => WriteAction::WriteContent(p@, bytes@),
            WriteAction::Rename(from, to) => WriteAction::Rename(from@, to@),
            WriteAction::Finish(r) => WriteAction::Finish(seen(r)),
            WriteAction::Rest => WriteAction::Rest,
        }
    }
}

/// The view of an event.
pub open spec fn write_reply_view(e: WriteReply) -> WriteReplyView {
    match e {
        WriteEvent::Located { parent, tmp } => WriteEvent::Located {
            parent: match parent {
                Some(p) => Some(p@),
                None => None,
            },
            tmp: tmp@,
        },
        WriteEvent::DirectoryCreated(r) => WriteEvent::DirectoryCreated(seen(r)),
        WriteEvent::ContentWritten(r) => WriteEvent::ContentWritten(seen(r)),
        WriteEvent::Renamed(r) => WriteEvent::Renamed(seen(r)),
    }
}

/// The error that an event brings.
pub open spec fn write_error(e: WriteReply) -> Option<Error> {
    match e {
        WriteEvent::Located { parent: _, tmp: _ } => None,
        WriteEvent::DirectoryCreated(r) => error_in(r),
        WriteEvent::ContentWritten(r) => error_in(r),
        WriteEvent::Renamed(r) => error_in(r),
    }
}

/// What writing comes to, at its end.
pub open spec fn write_end(
    a: WriteAction<FilePath, Vec<u8>, String, Result<(), Error>>,
) -> Option<Result<(), Error>> {
    match a {
        WriteAction::Finish(r) => Some(r),
        _ => None,
    }
}

/// The step to creating the directory.
pub open spec fn write_directory(bytes: Seq<u8>, target: PathView, dir: PathView, tmp: PathView) -> (
    WriteView,
    WriteActionView,
) {
    (
        WriteView { bytes, target, state: WriteState::AwaitDirectory { dir, tmp } },
        WriteAction::CreateDirectory(dir),
    )
}

/// The step to writing the content under the temporary name.
pub open spec fn write_content(bytes: Seq<u8>, target: PathView, tmp: PathView) -> (
    WriteView,
    WriteActionView,
) {
    (
        WriteView { bytes, target, state: WriteState::AwaitContent { tmp } },
        WriteAction::WriteContent(tmp, bytes),
    )
}

/// The step to the end.
pub open spec fn write_over(bytes: Seq<u8>, target: PathView, r: Result<(), ErrorView>) -> (
    WriteView,
    WriteActionView,
) {
    (WriteView { bytes, target, state: WriteState::Finished }, WriteAction::Finish(r))
}

/// Where writing begins. Where the file is a name in a directory that is known,
/// its neighbours are known too.
pub open spec fn write_start(bytes: Seq<u8>, target: PathView) -> (WriteView, WriteActionView) {
    if target.names.len() > 0 {
        write_directory(
            bytes,
            target,
            target.parent(),
            target.parent().child(AOT_CACHE_META_TMP@),
        )
    } else {
        (
            WriteView { bytes, target, state: WriteState::AwaitPlace },
            WriteAction::Locate(target, AOT_CACHE_META_TMP@),
        )
    }
}

/// The step that writing takes on an event: the directory is created, the
/// content is written under the temporary name, and then takes the place of the
/// file. The first failure ends it. What was not asked for changes nothing.
pub open spec fn write_step(w: WriteView, e: WriteReplyView) -> (WriteView, WriteActionView) {
    match (w.state, e) {
        (WriteState::AwaitPlace, WriteEvent::Located { parent, tmp }) => match parent {
            Some(dir) => write_directory(w.bytes, w.target, dir, tmp),
            None => write_content(w.bytes, w.target, tmp),
        },
        (WriteState::AwaitDirectory { dir, tmp }, WriteEvent::DirectoryCreated(r)) => match r {
            Ok(_) => write_content(w.bytes, w.target, tmp),
            Err(e) => write_over(
                w.bytes,
                w.target,
                Err(wrapped_error("Failed to create directory: "@ + dir.shown(), e)),
            ),
        },
        (WriteState::AwaitContent { tmp }, WriteEvent::ContentWritten(r)) => match r {
            Ok(_) => (
                WriteView { state: WriteState::AwaitRename { tmp }, ..w },
                WriteAction::Rename(tmp, w.target),
            ),
            Err(e) => write_over(
                w.bytes,
                w.target,
                Err(wrapped_error("Failed to write AOT meta file: "@ + tmp.shown(), e)),
            ),
        },
        (WriteState::AwaitRename { tmp }, WriteEvent::Renamed(r)) => match r {
            Ok(_) => write_over(w.bytes, w.target, Ok(())),
            Err(e) => write_over(
                w.bytes,
                w.target,
                Err(
                    wrapped_error(
                        "Failed to rename AOT meta file: "@ + tmp.shown() + " -> "@
                            + w.target.shown(),
                        e,
                    ),
                ),
            ),
        },
        _ => (w, WriteAction::Rest),
    }
}

impl MetaWrite {
    fn into_directory(self, dir: FilePath, tmp: FilePath) -> (r: (
        MetaWrite,
        WriteAction<FilePath, Vec<u8>, String, Result<(), Error>>,
    ))
        ensures
            (r.0@, r.1@) == write_directory(self@.bytes, self@.target, dir@, tmp@),
    {
        let action = WriteAction::CreateDirectory(dir.copy());
        (
            MetaWrite {
                bytes: self.bytes,
                target: self.target,
                state: WriteState::AwaitDirectory { dir, tmp },
            },
            action,
        )
    }

    fn into_content(self, tmp: FilePath) -> (r: (
        MetaWrite,
        WriteAction<FilePath, Vec<u8>, String, Result<(), Error>>,
    ))
        ensures
            (r.0@, r.1@) == write_content(self@.bytes, self@.target, tmp@),
    {
        let bytes = self.bytes.clone();
        assert(bytes@ =~= self.bytes@);
        let action = WriteAction::WriteContent(tmp.copy(), bytes);
        (
            MetaWrite {
                bytes: self.bytes,
                target: self.target,
                state: WriteState::AwaitContent { tmp },
            },
            action,
        )
    }

    fn into_end(self, out: Result<(), Error>) -> (r: (
        MetaWrite,
        WriteAction<FilePath, Vec<u8>, String, Result<(), Error>>,
    ))
        ensures
            (r.0@, r.1@) == write_over(self@.bytes, self@.target, seen(out)),
            write_end(r.1) == Some(out),
    {
        (
            MetaWrite { bytes: self.bytes, target: self.target, state: WriteState::Finished },
            WriteAction::Finish(out),
        )
    }

    /// Goes on with what came of the last action.
    pub fn next(self, event: WriteReply) -> (r: (
        MetaWrite,
        WriteAction<FilePath, Vec<u8>, String, Result<(), Error>>,
    ))
        ensures
            (r.0@, r.1@) == write_step(self@, write_reply_view(event)),
            keeps_trace(write_error(event), write_end(r.1)),
    {
        let MetaWrite { bytes, target, state } = self;
        match (state, event) {
            (WriteState::AwaitPlace, WriteEvent::Located { parent, tmp }) => {
                let w = MetaWrite { bytes, target, state: WriteState::AwaitPlace };
                match parent {
                    Some(dir) => w.into_directory(dir, tmp),
                    None => w.into_content(tmp),
                }
            },
            (WriteState::AwaitDirectory { dir, tmp }, WriteEvent::DirectoryCreated(created)) => {
                let w = MetaWrite { bytes, target, state: WriteState::AwaitPlace };
                match create_directory(&dir, created) {
                    Ok(()) => w.into_content(tmp),
                    Err(e) => w.into_end(Err(e)),
                }
            },
            (WriteState::AwaitContent { tmp }, WriteEvent::ContentWritten(written)) => {
                let context = cat2("Failed to write AOT meta file: ", tmp.display().as_str());
                match written.err_ctx(context) {
                    Ok(()) => {
                        let action = WriteAction::Rename(tmp.copy(), target.copy());
                        (
                            MetaWrite { bytes, target, state: WriteState::AwaitRename { tmp } },
                            action,
                        )
                    },
                    Err(e) => MetaWrite { bytes, target, state: WriteState::Finished }.into_end(
                        Err(e),
                    ),
                }
            },
            (WriteState::AwaitRename { tmp }, WriteEvent::Renamed(renamed)) => {
                let from = tmp.display();
                let to = target.display();
                let context = cat4(
                    "Failed to rename AOT meta file: ",
                    from.as_str(),
                    " -> ",
                    to.as_str(),
                );
                MetaWrite { bytes, target, state: WriteState::Finished }.into_end(
                    renamed.err_ctx(context),
                )
            },
            (state, _) => (MetaWrite { bytes, target, state }, WriteAction::Rest),
        }
    }
}

/// What writing finds when it acts.
pub struct WriteFacts {
    /// The directory of a file that is no name in a known one, if it has one.
    pub parent: Option<PathView>,
    /// The path beside that file.
    pub beside: PathView,
    pub created: Result<(), ErrorView>,
    pub written: Result<(), ErrorView>,
    pub renamed: Result<(), ErrorView>,
}

/// What comes of an action on these facts.
pub open spec fn write_reply(f: WriteFacts, a: WriteActionView) -> WriteReplyView {
    match a {
        WriteAction::Locate(_, _) => WriteEvent::Located { parent: f.parent, tmp: f.beside },
        WriteAction::CreateDirectory(_) => WriteEvent::DirectoryCreated(f.created),
        WriteAction::WriteContent(_, _) => WriteEvent::ContentWritten(f.written),
        _ => WriteEvent::Renamed(f.renamed),
    }
}

/// The actions that writing asks for within `steps` steps, up to its end.
pub open spec fn write_actions(f: WriteFacts, at: (WriteView, WriteActionView), steps: nat) -> Seq<
    WriteActionView,
>
    decreases steps,
{
    match at.1 {
        WriteAction::Finish(_) => seq![at.1],
        a => if steps == 0 {
            seq![a]
        } else {
            seq![a] + write_actions(f, write_step(at.0, write_reply(f, a)), (steps - 1) as nat)
        },
    }
}

/// The directory that is created for the file `target`, if any.
pub open spec fn write_dir(f: WriteFacts, target: PathView) -> Option<PathView> {
    if target.names.len() > 0 {
        Some(target.parent())
    } else {
        f.parent
    }
}

/// The file that the content of `target` is written to first.
pub open spec fn write_tmp(f: WriteFacts, target: PathView) -> PathView {
    if target.names.len() > 0 {
        target.parent().child(AOT_CACHE_META_TMP@)
    } else {
        f.beside
    }
}

/// What is done from the directory on.
pub open spec fn write_tail(f: WriteFacts, bytes: Seq<u8>, target: PathView) -> Seq<
    WriteActionView,
> {
    let tmp = write_tmp(f, target);
    let write = WriteAction::WriteContent(tmp, bytes);
    match f.written {
        Err(e) => seq![
            write,
            WriteAction::Finish(
                Err(wrapped_error("Failed to write AOT meta file: "@ + tmp.shown(), e)),
            ),
        ],
        Ok(_) => seq![
            write,
            WriteAction::Rename(tmp, target),
            WriteAction::Finish(
                in_context(
                    f.renamed,
                    "Failed to rename AOT meta file: "@ + tmp.shown() + " -> "@ + target.shown(),
                ),
            ),
        ],
    }
}

/// The whole of what writing does on these facts.
pub open spec fn write_script(f: WriteFacts, bytes: Seq<u8>, target: PathView) -> Seq<
    WriteActionView,
> {
    let located: Seq<WriteActionView> = if target.names.len() > 0 {
        Seq::empty()
    } else {
        seq![WriteAction::Locate(target, AOT_CACHE_META_TMP@)]
    };
    match write_dir(f, target) {
        None => located + write_tail(f, bytes, target),
        Some(dir) => located + seq![WriteAction::CreateDirectory(dir)] + match f.created {
            Err(e) => seq![
                WriteAction::Finish(
                    Err(wrapped_error("Failed to create directory: "@ + dir.shown(), e)),
                ),
            ],
            Ok(_) => write_tail(f, bytes, target),
        },
    }
}

/// Writing ends, after four replies at most, and does its work in order: the
/// directory, the content under the temporary name, the file.
pub proof fn law_write_ends(f: WriteFacts, bytes: Seq<u8>, target: PathView)
    ensures
        write_actions(f, write_start(bytes, target), 4) == write_script(f, bytes, target),
{
    reveal_with_fuel(write_actions, 5);
    assert(write_actions(f, write_start(bytes, target), 4) =~= write_script(f, bytes, target));
}

/// The file itself is touched by one rename, which is the last thing done and
/// puts all of the content there. Everything before it writes to the temporary
/// file. Where writing fails the rename was not asked for or failed itself, and
/// so the file is as it was; where it succeeds every part of it did.
pub proof fn law_old_meta_is_kept(f: WriteFacts, bytes: Seq<u8>, target: PathView)
    ensures
        ({
            let script = write_script(f, bytes, target);
            let n = script.len();
            &&& n > 0
            &&& forall|i: int|
                0 <= i < n ==> (#[trigger] script[i] matches WriteAction::WriteContent(p, b) ==> p
                    == write_tmp(f, target) && b == bytes)
            &&& forall|i: int|
                0 <= i < n ==> (#[trigger] script[i] matches WriteAction::Rename(p, t) ==> i == n
                    - 2 && i > 0 && p == write_tmp(f, target) && t == target && script[i - 1]
                    == WriteAction::<PathView, Seq<u8>, Seq<char>, Result<(), ErrorView>>::WriteContent(
                    p,
                    bytes,
                ) && f.written is Ok)
            &&& script[n - 1] matches WriteAction::Finish(r) && (r is Err ==> f.renamed is Err
                || forall|i: int| 0 <= i < n ==> !(#[trigger] script[i] is Rename)) && (r is Ok
                ==> n > 1 && script[n - 2] is Rename && f.renamed is Ok && (write_dir(
                f,
                target,
            ) is Some ==> f.created is Ok))
        }),
{
    let script = write_script(f, bytes, target);
    let tail = write_tail(f, bytes, target);
    let lead = script.len() - tail.len();
    if write_dir(f, target) is None || f.created is Ok {
        assert(script.skip(lead) =~= tail);
        if f.written is Ok {
            assert(script[script.len() - 2] == tail[1]);
            assert(script[script.len() - 3] == tail[0]);
        }
        assert(script[script.len() - 1] == tail[tail.len() - 1]);
    }
}

/// The files of a cache are `paper.aot`, `paper.aot.config` and `paper.aot.meta`
/// in `.paper/cache` of the repository.
pub proof fn law_cache_files_are_written(dir: PathView, text: Seq<char>)
    requires
        dir.text() == Some(text),
        takes_names(dir.platform, text),
    ensures
        dir.platform == Platform::Unix ==> {
            &&& cache_dir(dir).text() == Some(text + "/.paper/cache"@)
            &&& cache_file(dir).text() == Some(text + "/.paper/cache/paper.aot"@)
            &&& conf_file(dir).text() == Some(text + "/.paper/cache/paper.aot.config"@)
            &&& meta_file(dir).text() == Some(text + "/.paper/cache/paper.aot.meta"@)
        },
        dir.platform == Platform::Windows ==> {
            &&& cache_dir(dir).text() == Some(text + "\\.paper\\cache"@)
            &&& cache_file(dir).text() == Some(text + "\\.paper\\cache\\paper.aot"@)
            &&& conf_file(dir).text() == Some(text + "\\.paper\\cache\\paper.aot.config"@)
            &&& meta_file(dir).text() == Some(text + "\\.paper\\cache\\paper.aot.meta"@)
        },
{
    lemma_names_plain();
    law_names_are_written(dir, text, ".paper"@, "cache"@, AOT_CACHE_FILE@);
    law_names_are_written(dir, text, ".paper"@, "cache"@, AOT_CONF_FILE@);
    law_names_are_written(dir, text, ".paper"@, "cache"@, AOT_CACHE_META@);
    reveal_strlit(".paper");
    reveal_strlit("cache");
    reveal_strlit("paper.aot");
    reveal_strlit("paper.aot.config");
    reveal_strlit("paper.aot.meta");
    let sep = written_separator(dir.platform);
    let folder = text + sep + ".paper"@ + sep + "cache"@;
    match dir.platform {
        Platform::Unix => {
            reveal_strlit("/.paper/cache");
            reveal_strlit("/.paper/cache/paper.aot");
            reveal_strlit("/.paper/cache/paper.aot.config");
            reveal_strlit("/.paper/cache/paper.aot.meta");
            assert(folder =~= text + "/.paper/cache"@);
            assert(folder + sep + AOT_CACHE_FILE@ =~= text + "/.paper/cache/paper.aot"@);
            assert(folder + sep + AOT_CONF_FILE@ =~= text + "/.paper/cache/paper.aot.config"@);
            assert(folder + sep + AOT_CACHE_META@ =~= text + "/.paper/cache/paper.aot.meta"@);
        },
        Platform::Windows => {
            reveal_strlit("\\.paper\\cache");
            reveal_strlit("\\.paper\\cache\\paper.aot");
            reveal_strlit("\\.paper\\cache\\paper.aot.config");
            reveal_strlit("\\.paper\\cache\\paper.aot.meta");
            assert(folder =~= text + "\\.paper\\cache"@);
            assert(folder + sep + AOT_CACHE_FILE@ =~= text + "\\.paper\\cache\\paper.aot"@);
            assert(folder + sep + AOT_CONF_FILE@ =~= text + "\\.paper\\cache\\paper.aot.config"@);
            assert(folder + sep + AOT_CACHE_META@ =~= text + "\\.paper\\cache\\paper.aot.meta"@);
        },
    }
}

/// The files of a cache are names in `.paper` and `cache` below the repository,
/// whatever the path of the repository is.
pub proof fn law_cache_files_are_below(dir: PathView)
    ensures
        cache_dir(dir).names == dir.names.push(".paper"@).push("cache"@),
        cache_file(dir).names == dir.names.push(".paper"@).push("cache"@).push("paper.aot"@),
        conf_file(dir).names == dir.names.push(".paper"@).push("cache"@).push("paper.aot.config"@),
        meta_file(dir).names == dir.names.push(".paper"@).push("cache"@).push("paper.aot.meta"@),
        cache_dir(dir).base == dir.base && cache_dir(dir).platform == dir.platform,
        cache_file(dir).base == dir.base && cache_file(dir).platform == dir.platform,
        conf_file(dir).base == dir.base && conf_file(dir).platform == dir.platform,
        meta_file(dir).base == dir.base && meta_file(dir).platform == dir.platform,
{
}

/// Two virtual machines are told apart by what they say of their version: what is
/// saved of two answers is the same only where they differ by white space at
/// their ends alone, and what stands between that white space is saved whole.
pub proof fn law_ident_tells_apart(a: Seq<char>, b: Seq<char>) -> (ends: (
    Seq<char>,
    Seq<char>,
    Seq<char>,
    Seq<char>,
))
    requires
        trimmed(readable(encode_utf8(a))) == trimmed(readable(encode_utf8(b))),
    ensures
        ({
            let ident = trimmed(readable(encode_utf8(a)));
            &&& a == ends.0 + ident + ends.1
            &&& b == ends.2 + ident + ends.3
            &&& forall|i: int| 0 <= i < ends.0.len() ==> is_space(#[trigger] ends.0[i])
            &&& forall|i: int| 0 <= i < ends.1.len() ==> is_space(#[trigger] ends.1[i])
            &&& forall|i: int| 0 <= i < ends.2.len() ==> is_space(#[trigger] ends.2[i])
            &&& forall|i: int| 0 <= i < ends.3.len() ==> is_space(#[trigger] ends.3[i])
        }),
{
    law_readable(a, Seq::empty());
    law_readable(b, Seq::empty());
    let x = law_trimmed(a);
    let y = law_trimmed(b);
    (x.0, x.1, y.0, y.1)
}

/// Two records of meta data are equal exactly where all four of their parts are:
/// a run with another virtual machine, other arguments, another file on the class
/// path or another cache never passes for the one that was recorded.
pub proof fn law_meta_is_equal_in_every_part(a: AotMeta, b: AotMeta)
    ensures
        vstd::std_specs::cmp::PartialEqSpec::eq_spec(&a, &b) <==> {
            &&& a.jvm_ident@ == b.jvm_ident@
            &&& a.jvm_args.deep_view() == b.jvm_args.deep_view()
            &&& a.classpath.deep_view() == b.classpath.deep_view()
            &&& a.aot_cache_hash@ == b.aot_cache_hash@
        },
{
}

/// The view of meta data is its four parts.
pub proof fn law_meta_view(m: AotMeta)
    ensures
        m@.jvm_ident == m.jvm_ident@,
        m@.jvm_args == m.jvm_args.deep_view(),
        m@.classpath == m.classpath.deep_view(),
        m@.aot_cache_hash == m.aot_cache_hash@,
{
}

/// The content of a file is meta data exactly where its four parts can be read
/// from it, and is then these parts in their order.
pub proof fn law_meta_of(bytes: Seq<u8>, m: MetaView)
    ensures
        meta_of(bytes) == Some(m) <==> postcard_parts(usize::BITS, bytes) == Some(
            (m.jvm_ident, m.jvm_args, m.classpath, m.aot_cache_hash),
        ),
        meta_of(bytes) is None <==> postcard_parts(usize::BITS, bytes) is None,
        bytes_of(m) == postcard_bytes(m.jvm_ident, m.jvm_args, m.classpath, m.aot_cache_hash),
{
}

/// The text of why the version of a virtual machine is not known names the
/// program, and ends in the reason.
pub proof fn law_ident_failure(java: PathView, cause: ErrorView)
    ensures
        ident_failure(java, cause).text() == "Failed to execute 'java -Xinternalversion' command"@
            + " ("@ + java.shown() + ")"@ + "\nCaused by: "@ + cause.text(),
{
}

/// The program that is asked for the version is the one in the Java home of the
/// run.
pub proof fn law_ident_program(l: Launcher)
    requires
        takes_names(l.repo_dir@.platform, l.java_home@),
    ensures
        l.repo_dir@.platform == Platform::Unix ==> ident_program(l).text() == Some(
            l.java_home@ + "/bin/java"@,
        ),
        l.repo_dir@.platform == Platform::Windows ==> ident_program(l).text() == Some(
            l.java_home@ + "\\bin\\java.exe"@,
        ),
{
    let home = PathView {
        platform: l.repo_dir@.platform,
        base: encode_utf8(l.java_home@),
        names: Seq::empty(),
    };
    law_path_from_text(home.platform, l.java_home@);
    law_java_program(home, l.java_home@);
}

/// A file on the class path that does not exist has no digest, and neither has
/// one that could not be opened or read; the texts say which. Any other has the
/// digest of its content.
pub proof fn law_probe(path: PathView, read: Option<FileRead>)
    ensures
        ({
            let out = probe_outcome(path, read);
            &&& read is None ==> out is Err && out->Err_0.text()
                == "Cannot compute AOT info: classpath entry does not exist: "@ + path.shown()
            &&& read matches Some(FileRead::Content(data)) ==> out == Ok::<Seq<u8>, ErrorView>(
                sha256_of(data@),
            )
            &&& read matches Some(FileRead::NotOpened(e)) ==> out is Err && out->Err_0.text()
                == "Failed to hash file "@ + path.shown() + "\nCaused by: "@ + (
            "Failed to open file: "@ + path.shown() + "\nCaused by: "@ + e@.text())
            &&& read matches Some(FileRead::Broken(e)) ==> out is Err && out->Err_0.text()
                == "Failed to hash file "@ + path.shown() + "\nCaused by: "@ + e@.text()
        }),
{
    reveal_with_fuel(ErrorView::text, 3);
}

/// Collecting asks for the files on the class path one after the other, in the
/// order of the class path, and for the cache of the run last.
pub proof fn law_build_asks_in_order(l: Launcher, hashes: Seq<Seq<u8>>)
    ensures
        hashes.len() < l.classpath@.len() ==> build_request(l, hashes) == MetaRequest::Probe(
            l.classpath@[hashes.len() as int]@,
        ),
        hashes.len() >= l.classpath@.len() ==> build_request(l, hashes) == MetaRequest::ReadCache(
            l.aot_files.cache@,
        ),
{
}

proof fn lemma_probes_fail(
    paths: Seq<PathView>,
    probes: Seq<Option<FileRead>>,
    hashes: Seq<Seq<u8>>,
    i: int,
)
    requires
        paths.len() == probes.len(),
        0 <= i < probes.len(),
        forall|j: int|
            0 <= j < i ==> (#[trigger] probes[j] matches Some(FileRead::Content(_))),
        !(probes[i] matches Some(FileRead::Content(_))),
    ensures
        probes_outcome(paths, probes, hashes) is Err,
        probes_outcome(paths, probes, hashes)->Err_0 == probe_outcome(paths[i], probes[i])->Err_0,
    decreases i,
{
    if i > 0 {
        assert(probes[0] matches Some(FileRead::Content(_)));
        let rest = probes.drop_first();
        assert forall|j: int| 0 <= j < i - 1 implies (#[trigger] rest[j] matches Some(
            FileRead::Content(_),
        )) by {
            assert(rest[j] == probes[j + 1]);
        }
        assert(rest[i - 1] == probes[i]);
        assert(paths.drop_first()[i - 1] == paths[i]);
        let hash = probe_outcome(paths[0], probes[0])->Ok_0;
        lemma_probes_fail(paths.drop_first(), rest, hashes.push(hash), i - 1);
    }
}

/// The first file on the class path that cannot be read is the one that
/// collecting fails with, whatever comes after it.
pub proof fn law_first_unread_file_is_told(
    l: Launcher,
    ident: Seq<char>,
    probes: Seq<Option<FileRead>>,
    cache: FileRead,
    i: int,
)
    requires
        probes.len() == l.classpath@.len(),
        0 <= i < probes.len(),
        forall|j: int|
            0 <= j < i ==> (#[trigger] probes[j] matches Some(FileRead::Content(_))),
        !(probes[i] matches Some(FileRead::Content(_))),
    ensures
        meta_outcome(l, ident, probes, cache) is Err,
        meta_outcome(l, ident, probes, cache)->Err_0 == probe_outcome(
            l.classpath@[i]@,
            probes[i],
        )->Err_0,
{
    let paths = l.classpath.deep_view();
    assert(paths[i] == l.classpath@[i]@);
    lemma_probes_fail(paths, probes, Seq::empty(), i);
}

/// Meta data for a name in a directory is written beside it: the directory is
/// created, the content is written to `paper.aot.meta.tmp` there, and that file
/// is renamed to the name. Each failure ends this, and its text says what failed.
pub proof fn law_meta_is_written_beside(
    f: WriteFacts,
    bytes: Seq<u8>,
    dir: PathView,
    name: Seq<char>,
)
    ensures
        ({
            let target = dir.child(name);
            let tmp = dir.child("paper.aot.meta.tmp"@);
            let done = write_actions(f, write_start(bytes, target), 4);
            let n = done.len();
            let made = f.created is Ok;
            let written = made && f.written is Ok;
            &&& n >= 2
            &&& done[0] == WriteAction::<
                PathView,
                Seq<u8>,
                Seq<char>,
                Result<(), ErrorView>,
            >::CreateDirectory(dir)
            &&& f.created matches Err(e) ==> n == 2 && (done[1] matches WriteAction::Finish(
                Err(out),
            ) && out.text() == "Failed to create directory: "@ + dir.shown() + "\nCaused by: "@
                + e.text())
            &&& made ==> n >= 3 && done[1] == WriteAction::<
                PathView,
                Seq<u8>,
                Seq<char>,
                Result<(), ErrorView>,
            >::WriteContent(tmp, bytes)
            &&& made && f.written is Err ==> n == 3 && (done[2] matches WriteAction::Finish(
                Err(out),
            ) && out.text() == "Failed to write AOT meta file: "@ + tmp.shown()
                + "\nCaused by: "@ + f.written->Err_0.text())
            &&& written ==> n == 4 && done[2] == WriteAction::<
                PathView,
                Seq<u8>,
                Seq<char>,
                Result<(), ErrorView>,
            >::Rename(tmp, target)
            &&& written && f.renamed is Err ==> (done[3] matches WriteAction::Finish(Err(out))
                && out.text() == "Failed to rename AOT meta file: "@ + tmp.shown() + " -> "@
                + target.shown() + "\nCaused by: "@ + f.renamed->Err_0.text())
            &&& written && f.renamed is Ok ==> (done[3] matches WriteAction::Finish(Ok(_)))
        }),
{
    law_parent_of_child(dir, name);
    reveal_with_fuel(write_actions, 5);
    reveal_with_fuel(ErrorView::text, 2);
}

/// Meta data for a path that was given whole is written beside it too: where that
/// is, is asked first.
pub proof fn law_meta_is_written_beside_a_whole_path(f: WriteFacts, bytes: Seq<u8>, target: PathView)
    requires
        target.names.len() == 0,
        f.created is Ok,
        f.written is Ok,
    ensures
        ({
            let done = write_actions(f, write_start(bytes, target), 4);
            let n = done.len();
            &&& n >= 4
            &&& done[0] == WriteAction::<
                PathView,
                Seq<u8>,
                Seq<char>,
                Result<(), ErrorView>,
            >::Locate(target, "paper.aot.meta.tmp"@)
            &&& f.parent matches Some(dir) ==> n == 5 && done[1] == WriteAction::<
                PathView,
                Seq<u8>,
                Seq<char>,
                Result<(), ErrorView>,
            >::CreateDirectory(dir)
            &&& f.parent is None ==> n == 4
            &&& done[n - 3] == WriteAction::<
                PathView,
                Seq<u8>,
                Seq<char>,
                Result<(), ErrorView>,
            >::WriteContent(f.beside, bytes)
            &&& done[n - 2] == WriteAction::<
                PathView,
                Seq<u8>,
                Seq<char>,
                Result<(), ErrorView>,
            >::Rename(f.beside, target)
            &&& done[n - 1] matches WriteAction::Finish(r) && (r is Ok <==> f.renamed is Ok)
        }),
{
    reveal_with_fuel(write_actions, 5);
}

/// The view of an event of writing is the same event over views.
pub proof fn law_write_reply_view(
    parent: Option<FilePath>,
    tmp: FilePath,
    r: Result<(), Error>,
)
    ensures
        write_reply_view(WriteEvent::DirectoryCreated(r)) == WriteEvent::<
            PathView,
            ErrorView,
        >::DirectoryCreated(seen(r)),
        write_reply_view(WriteEvent::ContentWritten(r)) == WriteEvent::<
            PathView,
            ErrorView,
        >::ContentWritten(seen(r)),
        write_reply_view(WriteEvent::Renamed(r)) == WriteEvent::<PathView, ErrorView>::Renamed(
            seen(r),
        ),
        write_reply_view(WriteEvent::Located { parent, tmp }) matches WriteEvent::Located {
            parent: p,
            tmp: t,
        } && t == tmp@ && (parent is None <==> p is None) && (parent matches Some(dir) ==> p == Some(
            dir@,
        )),
{
}

/// The error that an event of writing brings is the one in it, and what writing
/// comes to is what it ends with; a file that was not read is told with the
/// backtrace of the read.
pub proof fn law_write_error(e: Error, r: Result<(), Error>, read: FileRead)
    ensures
        write_error(WriteEvent::DirectoryCreated(Err(e))) == Some(e),
        write_error(WriteEvent::ContentWritten(Err(e))) == Some(e),
        write_error(WriteEvent::Renamed(Err(e))) == Some(e),
        write_end(WriteAction::Finish(r)) == Some(r),
        keeps_read_trace(Some(read), MetaStep::Done(Err(e))) <==> e.trace() == read_trace(read),
{
}

/// The program that is asked for the version is that of the Java home of the run,
/// whatever that is.
pub proof fn law_ident_program_is_below(l: Launcher)
    ensures
        ident_program(l).base == encode_utf8(l.java_home@),
        ident_program(l).platform == l.repo_dir@.platform,
        ident_program(l).names.len() == 2,
        ident_program(l).names[0] == "bin"@,
        ident_program(l).names[1] == (match l.repo_dir@.platform {
            Platform::Unix => "java"@,
            Platform::Windows => "java.exe"@,
        }),
{
}

/// Collecting takes a digest from a file on the class path where it asked for
/// one, and ends with the digest of the cache where it asked for that. What it
/// did not ask for changes nothing.
pub proof fn law_build_step(
    l: Launcher,
    ident: Seq<char>,
    hashes: Seq<Seq<u8>>,
    probe: Option<FileRead>,
    read: FileRead,
)
    ensures
        hashes.len() < l.classpath@.len() ==> {
            &&& build_step(l, ident, hashes, MetaEvent::CacheRead(read)) == MetaStepView::More(
                ident,
                hashes,
            )
            &&& probe matches Some(FileRead::Content(data)) ==> build_step(
                l,
                ident,
                hashes,
                MetaEvent::Probed(probe),
            ) == MetaStepView::More(ident, hashes.push(sha256_of(data@)))
            &&& !(probe matches Some(FileRead::Content(_))) ==> (build_step(
                l,
                ident,
                hashes,
                MetaEvent::Probed(probe),
            ) matches MetaStepView::Done(Err(_)))
        },
        hashes.len() >= l.classpath@.len() ==> {
            &&& build_step(l, ident, hashes, MetaEvent::Probed(probe)) == MetaStepView::More(
                ident,
                hashes,
            )
            &&& read matches FileRead::Content(data) ==> build_step(
                l,
                ident,
                hashes,
                MetaEvent::CacheRead(read),
            ) == MetaStepView::Done(
                Ok(
                    MetaView {
                        jvm_ident: ident,
                        jvm_args: l.args.jvm.deep_view(),
                        classpath: hashes,
                        aot_cache_hash: sha256_of(data@),
                    },
                ),
            )
            &&& !(read is Content) ==> (build_step(
                l,
                ident,
                hashes,
                MetaEvent::CacheRead(read),
            ) matches MetaStepView::Done(Err(_)))
        },
{
}

/// A cache that could not be read is what collecting fails with once every file
/// on the class path has its digest; the text names the cache.
pub proof fn law_unread_cache_is_told(
    l: Launcher,
    ident: Seq<char>,
    contents: Seq<Seq<u8>>,
    probes: Seq<Option<FileRead>>,
    cache: FileRead,
)
    requires
        contents.len() == probes.len() == l.classpath@.len(),
        forall|i: int|
            0 <= i < probes.len() ==> (#[trigger] probes[i] matches Some(FileRead::Content(data))
                && data@ == contents[i]),
        cache is Broken,
    ensures
        meta_outcome(l, ident, probes, cache) is Err,
        meta_outcome(l, ident, probes, cache)->Err_0.text() == "Failed to hash file "@
            + l.aot_files.cache@.shown() + "\nCaused by: "@ + cache->Broken_0@.text(),
{
    lemma_probes_succeed(l.classpath.deep_view(), contents, probes, Seq::empty());
    reveal_with_fuel(ErrorView::text, 2);
}

/// An event that writing does not wait for changes nothing.
pub proof fn law_write_ignores_the_unasked(w: WriteView, e: WriteReplyView)
    requires
        !(w.state is AwaitPlace && e is Located),
        !(w.state is AwaitDirectory && e is DirectoryCreated),
        !(w.state is AwaitContent && e is ContentWritten),
        !(w.state is AwaitRename && e is Renamed),
    ensures
        write_step(w, e).0 == w,
        write_step(w, e).1 is Rest,
{
}

/// Writing keeps its content and its file through every step.
pub proof fn law_write_keeps_its_content(w: WriteView, e: WriteReplyView)
    ensures
        write_step(w, e).0.bytes == w.bytes,
        write_step(w, e).0.target == w.target,
        write_step(w, e).1 matches WriteAction::WriteContent(_, b) ==> b == w.bytes,
        write_step(w, e).1 matches WriteAction::Rename(_, t) ==> t == w.target,
{
}

/// The view of an action of writing is the same action over views.
pub proof fn law_write_action_view(
    p: FilePath,
    q: FilePath,
    bytes: Vec<u8>,
    name: String,
    r: Result<(), Error>,
)
    ensures
        WriteAction::<FilePath, Vec<u8>, String, Result<(), Error>>::Locate(p, name)@
            == WriteAction::<PathView, Seq<u8>, Seq<char>, Result<(), ErrorView>>::Locate(p@, name@),
        WriteAction::<FilePath, Vec<u8>, String, Result<(), Error>>::CreateDirectory(p)@
            == WriteAction::<PathView, Seq<u8>, Seq<char>, Result<(), ErrorView>>::CreateDirectory(
            p@,
        ),
        WriteAction::<FilePath, Vec<u8>, String, Result<(), Error>>::WriteContent(p, bytes)@
            == WriteAction::<PathView, Seq<u8>, Seq<char>, Result<(), ErrorView>>::WriteContent(
            p@,
            bytes@,
        ),
        WriteAction::<FilePath, Vec<u8>, String, Result<(), Error>>::Rename(p, q)@ == WriteAction::<
            PathView,
            Seq<u8>,
            Seq<char>,
            Result<(), ErrorView>,
        >::Rename(p@, q@),
        WriteAction::<FilePath, Vec<u8>, String, Result<(), Error>>::Finish(r)@ == WriteAction::<
            PathView,
            Seq<u8>,
            Seq<char>,
            Result<(), ErrorView>,
        >::Finish(seen(r)),
        WriteAction::<FilePath, Vec<u8>, String, Result<(), Error>>::Rest@ is Rest,
{
}

/// The view of what collecting asks for, and of what it comes to, is the same over
/// views.
pub proof fn law_meta_step_view(b: MetaBuild, m: AotMeta, e: Error, p: FilePath)
    ensures
        MetaStep::More(b)@ == MetaStepView::More(b.ident(), b.hashes()),
        MetaStep::Done(Ok(m))@ == MetaStepView::Done(Ok(m@)),
        MetaStep::Done(Err(e))@ == MetaStepView::Done(Err(e@)),
        MetaRequest::Probe(p)@ == MetaRequest::Probe(p@),
        MetaRequest::ReadCache(p)@ == MetaRequest::ReadCache(p@),
{
}

} // verus!
