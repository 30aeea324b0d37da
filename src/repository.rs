//! Decisions of the repository orchestrator: which files an operation applies
//! to, where their output goes, the per-file state machine, and the status and
//! result accounting. The file system and the cipher are driven by the caller.
use vstd::prelude::*;
use crate::error::{AgeError, AgeResult};
use crate::security::ends_with;
use vstd::utf8::encode_utf8;
use vstd::string::{StringExecFns, StringSliceAdditionalSpecFns};

verus! {

/// Age output format.
#[derive(Debug, Clone, Copy, PartialEq, Eq, Structural)]
pub enum OutputFormat {
    Binary,
    AsciiArmor,
}

/// The bytes of `.age`.
pub open spec fn age_suffix() -> Seq<u8> {
    seq![0x2Eu8, 0x61, 0x67, 0x65]
}

/// The bytes of `.armor`.
pub open spec fn armor_suffix() -> Seq<u8> {
    seq![0x2Eu8, 0x61, 0x72, 0x6D, 0x6F, 0x72]
}

/// The bytes of `-----BEGIN AGE ENCRYPTED FILE-----`.
pub open spec fn armor_header() -> Seq<u8> {
    seq![0x2Du8, 0x2D, 0x2D, 0x2D, 0x2D]
        + seq![0x42u8, 0x45, 0x47, 0x49, 0x4E, 0x20]
        + seq![0x41u8, 0x47, 0x45, 0x20]
        + seq![0x45u8, 0x4E, 0x43, 0x52, 0x59, 0x50, 0x54, 0x45, 0x44, 0x20]
        + seq![0x46u8, 0x49, 0x4C, 0x45]
        + seq![0x2Du8, 0x2D, 0x2D, 0x2D, 0x2D]
}

fn age_suffix_bytes() -> (r: Vec<u8>)
    ensures
        r@ == age_suffix(),
{
    let r: Vec<u8> = vec![0x2E, 0x61, 0x67, 0x65];
    assert(r@ =~= age_suffix());
    r
}

fn armor_suffix_bytes() -> (r: Vec<u8>)
    ensures
        r@ == armor_suffix(),
{
    let r: Vec<u8> = vec![0x2E, 0x61, 0x72, 0x6D, 0x6F, 0x72];
    assert(r@ =~= armor_suffix());
    r
}

fn armor_header_bytes() -> (r: Vec<u8>)
    ensures
        r@ == armor_header(),
{
    let r: Vec<u8> = vec![
        0x2D, 0x2D, 0x2D, 0x2D, 0x2D, 0x42, 0x45, 0x47, 0x49, 0x4E, 0x20, 0x41, 0x47, 0x45, 0x20,
        0x45, 0x4E, 0x43, 0x52, 0x59, 0x50, 0x54, 0x45, 0x44, 0x20, 0x46, 0x49, 0x4C, 0x45, 0x2D,
        0x2D, 0x2D, 0x2D, 0x2D,
    ];
    assert(r@ =~= armor_header());
    r
}

pub open spec fn starts_with(b: Seq<u8>, prefix: Seq<u8>) -> bool {
    prefix.len() <= b.len() && b.subrange(0, prefix.len() as int) == prefix
}

/// A file is encrypted when its name carries `.age` or `.armor`, or its
/// content begins with the armor header.
pub open spec fn is_encrypted(path: Seq<u8>, header: Seq<u8>) -> bool {
    ends_with(path, age_suffix()) || ends_with(path, armor_suffix()) || starts_with(header, armor_header())
}

fn bytes_end_with(b: &[u8], suffix: &[u8]) -> (r: bool)
    ensures
        r == ends_with(b@, suffix@),
{
    if suffix.len() > b.len() {
        return false;
    }
    let start = b.len() - suffix.len();
    let mut i: usize = 0;
    while i < suffix.len()
        invariant
            start + suffix@.len() == b@.len(),
            b@.len() <= usize::MAX,
            0 <= i <= suffix@.len(),
            forall|j: int| 0 <= j < i ==> b@[start + j] == suffix@[j],
        decreases suffix@.len() - i,
    {
        if b[start + i] != suffix[i] {
            assert(b@.subrange(start as int, b@.len() as int)[i as int] != suffix@[i as int]);
            return false;
        }
        i = i + 1;
    }
    assert(b@.subrange(start as int, b@.len() as int) =~= suffix@);
    true
}

fn bytes_start_with(b: &[u8], prefix: &[u8]) -> (r: bool)
    ensures
        r == starts_with(b@, prefix@),
{
    if prefix.len() > b.len() {
        return false;
    }
    let mut i: usize = 0;
    while i < prefix.len()
        invariant
            prefix@.len() <= b@.len(),
            0 <= i <= prefix@.len(),
            forall|j: int| 0 <= j < i ==> b@[j] == prefix@[j],
        decreases prefix@.len() - i,
    {
        if b[i] != prefix[i] {
            assert(b@.subrange(0, prefix@.len() as int)[i as int] != prefix@[i as int]);
            return false;
        }
        i = i + 1;
    }
    assert(b@.subrange(0, prefix@.len() as int) =~= prefix@);
    true
}

/// Tests whether a file is encrypted, from its path and its first bytes.
pub fn file_is_encrypted(path: &str, header: &[u8]) -> (r: bool)
    ensures
        r == is_encrypted(path.spec_bytes(), header@),
{
    let p = path.as_bytes();
    bytes_end_with(p, age_suffix_bytes().as_slice()) || bytes_end_with(p, armor_suffix_bytes().as_slice())
        || bytes_start_with(header, armor_header_bytes().as_slice())
}

/// A file found under the repository root: its path, its first bytes, and the
/// reason it could not be read, if any.
#[derive(Debug, Clone)]
pub struct FileEntry {
    pub path: String,
    pub header: Vec<u8>,
    pub read_error: Option<String>,
}

/// Whether an entry was read and is encrypted.
pub open spec fn entry_encrypted(e: FileEntry) -> bool {
    e.read_error is None && is_encrypted(encode_utf8(e.path@), e.header@)
}

/// Number of readable entries, and of readable encrypted entries, among the first `n`.
pub open spec fn count_readable(entries: Seq<FileEntry>) -> nat
    decreases entries.len(),
{
    if entries.len() == 0 {
        0
    } else {
        count_readable(entries.drop_last()) + if entries.last().read_error is None {
            1nat
        } else {
            0nat
        }
    }
}

pub open spec fn count_encrypted(entries: Seq<FileEntry>) -> nat
    decreases entries.len(),
{
    if entries.len() == 0 {
        0
    } else {
        count_encrypted(entries.drop_last()) + if entry_encrypted(entries.last()) {
            1nat
        } else {
            0nat
        }
    }
}

/// Lines listing the unreadable entries, `<path>: <reason>`, in order.
pub open spec fn failure_lines(entries: Seq<FileEntry>) -> Seq<Seq<char>>
    decreases entries.len(),
{
    if entries.len() == 0 {
        Seq::empty()
    } else {
        failure_lines(entries.drop_last()) + match entries.last().read_error {
            Some(reason) => seq![entries.last().path@ + ": "@ + reason@],
            None => Seq::empty(),
        }
    }
}

pub open spec fn string_views(v: Seq<String>) -> Seq<Seq<char>> {
    Seq::new(v.len(), |i: int| v[i]@)
}

proof fn lemma_counts_bounded(entries: Seq<FileEntry>)
    ensures
        count_encrypted(entries) <= count_readable(entries) <= entries.len(),
    decreases entries.len(),
{
    if entries.len() > 0 {
        lemma_counts_bounded(entries.drop_last());
    }
}

/// Encryption state of a tree, recomputed on demand.
#[derive(Debug, Clone)]
pub struct RepositoryState {
    pub total_files: usize,
    pub encrypted_files: usize,
    pub unencrypted_files: usize,
    /// Paths that could not be read, each followed by the reason.
    pub failed_files: Vec<String>,
}

impl RepositoryState {
    /// The counts agree: encrypted and unencrypted files make up the total.
    pub open spec fn wf(&self) -> bool {
        &&& self.encrypted_files <= self.total_files
        &&& self.unencrypted_files == self.total_files - self.encrypted_files
    }

    /// Whole-number percentage of encrypted files, rounded down; 0 for an empty tree.
    pub fn encryption_percentage(&self) -> (r: u64)
        requires
            self.wf(),
        ensures
            self.total_files == 0 ==> r == 0,
            self.total_files > 0 ==> r == (100 * self.encrypted_files as int) / (self.total_files as int),
    {
        if self.total_files == 0 {
            0
        } else {
            let e = self.encrypted_files as u128;
            let t = self.total_files as u128;
            proof {
                assert(100 * e <= 100 * t) by (nonlinear_arith)
                    requires e <= t;
                assert(100 * t < 0x1_0000_0000_0000_0000_0000) by (nonlinear_arith)
                    requires t < 0x1_0000_0000_0000_0000;
            }
            let p = (100 * e) / t;
            proof {
                assert((100 * (e as int)) / (t as int) <= 100) by (nonlinear_arith)
                    requires e <= t, t > 0;
            }
            p as u64
        }
    }

    /// Every file is encrypted, and there is at least one.
    pub fn is_fully_encrypted(&self) -> (r: bool)
        ensures
            r == (self.unencrypted_files == 0 && self.total_files > 0),
    {
        self.unencrypted_files == 0 && self.total_files > 0
    }

    /// No file is encrypted, and there is at least one.
    pub fn is_fully_decrypted(&self) -> (r: bool)
        ensures
            r == (self.encrypted_files == 0 && self.total_files > 0),
    {
        self.encrypted_files == 0 && self.total_files > 0
    }
}

fn failure_line(path: &String, reason: &String) -> (r: String)
    ensures
        r@ == path@ + ": "@ + reason@,
{
    let mut line = path.clone();
    line.append(": ");
    line.append(reason.as_str());
    line
}

/// Status of a tree from its entries: readable files are counted as encrypted
/// or not, unreadable ones are listed as failed with their reason.
pub fn compute_status(entries: &Vec<FileEntry>) -> (r: RepositoryState)
    ensures
        r.wf(),
        r.total_files == r.encrypted_files + r.unencrypted_files,
        r.total_files == count_readable(entries@),
        r.encrypted_files == count_encrypted(entries@),
        r.unencrypted_files == r.total_files - r.encrypted_files,
        r.failed_files@.len() == entries@.len() - count_readable(entries@),
        string_views(r.failed_files@) == failure_lines(entries@),
{
    let mut total: usize = 0;
    let mut encrypted: usize = 0;
    let mut failed: Vec<String> = Vec::new();
    let mut i: usize = 0;
    while i < entries.len()
        invariant
            0 <= i <= entries@.len(),
            total == count_readable(entries@.subrange(0, i as int)),
            encrypted == count_encrypted(entries@.subrange(0, i as int)),
            failed@.len() == i - total,
            string_views(failed@) == failure_lines(entries@.subrange(0, i as int)),
            encrypted <= total <= i,
        decreases entries@.len() - i,
    {
        proof {
            let s = entries@.subrange(0, i + 1);
            assert(s.drop_last() =~= entries@.subrange(0, i as int));
            lemma_counts_bounded(entries@.subrange(0, i as int));
        }
        let e = &entries[i];
        match &e.read_error {
            Some(reason) => {
                let ghost before = failed@;
                failed.push(failure_line(&e.path, reason));
                assert(string_views(failed@) =~= string_views(before) + seq![e.path@ + ": "@ + reason@]);
            },
            None => {
                assert(string_views(failed@) =~= string_views(failed@) + Seq::<Seq<char>>::empty());
                total = total + 1;
                if file_is_encrypted(e.path.as_str(), e.header.as_slice()) {
                    encrypted = encrypted + 1;
                }
            },
        }
        i = i + 1;
    }
    assert(entries@.subrange(0, entries@.len() as int) =~= entries@);
    RepositoryState { total_files: total, encrypted_files: encrypted, unencrypted_files: total - encrypted, failed_files: failed }
}

/// Whether a glob pattern (`*` any run of bytes, `?` any one byte) matches a
/// text in full.
pub open spec fn glob_match(p: Seq<u8>, t: Seq<u8>) -> bool
    decreases p.len() + t.len(),
{
    if p.len() == 0 {
        t.len() == 0
    } else if p[0] == 0x2A {
        glob_match(p.drop_first(), t) || (t.len() > 0 && glob_match(p, t.drop_first()))
    } else {
        t.len() > 0 && (p[0] == 0x3F || p[0] == t[0]) && glob_match(p.drop_first(), t.drop_first())
    }
}

fn glob_from(p: &[u8], pi: usize, t: &[u8], ti: usize) -> (r: bool)
    requires
        pi <= p@.len(),
        ti <= t@.len(),
    ensures
        r == glob_match(p@.subrange(pi as int, p@.len() as int), t@.subrange(ti as int, t@.len() as int)),
    decreases p@.len() - pi + t@.len() - ti,
{
    let ghost ps = p@.subrange(pi as int, p@.len() as int);
    let ghost ts = t@.subrange(ti as int, t@.len() as int);
    assert(ps.len() > 0 ==> ps.drop_first() =~= p@.subrange(pi + 1, p@.len() as int));
    assert(ts.len() > 0 ==> ts.drop_first() =~= t@.subrange(ti + 1, t@.len() as int));
    if pi == p.len() {
        ti == t.len()
    } else if p[pi] == 0x2A {
        glob_from(p, pi + 1, t, ti) || (ti < t.len() && glob_from(p, pi, t, ti + 1))
    } else {
        ti < t.len() && (p[pi] == 0x3F || p[pi] == t[ti]) && glob_from(p, pi + 1, t, ti + 1)
    }
}

/// Tests a glob pattern against a whole path.
pub fn glob_matches(pattern: &str, text: &str) -> (r: bool)
    ensures
        r == glob_match(pattern.spec_bytes(), text.spec_bytes()),
{
    let p = pattern.as_bytes();
    let t = text.as_bytes();
    assert(p@.subrange(0, p@.len() as int) =~= p@);
    assert(t@.subrange(0, t@.len() as int) =~= t@);
    glob_from(p, 0, t, 0)
}

/// Options of a lock operation.
#[derive(Debug, Clone)]
pub struct LockOptions {
    pub recursive: bool,
    pub format: OutputFormat,
    pub pattern_filter: Option<String>,
    pub backup_before_lock: bool,
}

/// Options of an unlock operation.
#[derive(Debug, Clone)]
pub struct UnlockOptions {
    pub selective: bool,
    pub verify_before_unlock: bool,
    pub pattern_filter: Option<String>,
    pub preserve_encrypted: bool,
}

/// Whether a path passes an optional filter.
pub open spec fn passes_filter(path: Seq<u8>, filter: Option<String>) -> bool {
    match filter {
        Some(f) => glob_match(encode_utf8(f@), path),
        None => true,
    }
}

fn filter_allows(path: &str, filter: &Option<String>) -> (r: bool)
    ensures
        r == passes_filter(path.spec_bytes(), *filter),
{
    match filter {
        Some(f) => glob_matches(f.as_str(), path),
        None => true,
    }
}

/// One file an operation will process: where its output goes and which
/// temporary sibling holds the output until it is renamed into place.
#[derive(Debug, Clone)]
pub struct PlannedFile {
    pub source: String,
    pub target: String,
    pub temporary: String,
    /// Sibling copy of the source made before the operation, if any.
    pub backup: Option<String>,
}

pub open spec fn lock_applies(e: FileEntry, options: LockOptions) -> bool {
    e.read_error is None && !is_encrypted(encode_utf8(e.path@), e.header@) && passes_filter(
        encode_utf8(e.path@),
        options.pattern_filter,
    )
}

pub open spec fn unlock_applies(e: FileEntry, options: UnlockOptions) -> bool {
    e.read_error is None && (ends_with(encode_utf8(e.path@), age_suffix()) || ends_with(
        encode_utf8(e.path@),
        armor_suffix(),
    )) && passes_filter(encode_utf8(e.path@), options.pattern_filter)
}

/// The planned file of a lock: `<name>.age` via `<name>.age.tmp`, with a `.bak`
/// copy when a backup is requested.
pub open spec fn lock_planned(path: Seq<char>, options: LockOptions) -> (Seq<char>, Seq<char>, Option<Seq<char>>) {
    (
        path + ".age"@,
        path + ".age.tmp"@,
        if options.backup_before_lock {
            Some(path + ".bak"@)
        } else {
            None
        },
    )
}

fn with_suffix(s: &String, suffix: &str) -> (r: String)
    ensures
        r@ == s@ + suffix@,
{
    let mut out = s.clone();
    out.append(suffix);
    out
}

/// Source paths of the entries a lock applies to, in order.
pub open spec fn lock_sources(entries: Seq<FileEntry>, options: LockOptions) -> Seq<Seq<char>>
    decreases entries.len(),
{
    if entries.len() == 0 {
        Seq::empty()
    } else {
        lock_sources(entries.drop_last(), options) + if lock_applies(entries.last(), options) {
            seq![entries.last().path@]
        } else {
            Seq::empty()
        }
    }
}

/// Source paths of a plan.
pub open spec fn plan_sources(plan: Seq<PlannedFile>) -> Seq<Seq<char>> {
    Seq::new(plan.len(), |k: int| plan[k].source@)
}

/// Plans a lock: every readable, unencrypted entry that passes the filter, in
/// the order given.
pub fn plan_lock(entries: &Vec<FileEntry>, options: &LockOptions) -> (r: Vec<PlannedFile>)
    ensures
        plan_sources(r@) == lock_sources(entries@, *options),
        forall|k: int|
            0 <= k < r@.len() ==> (#[trigger] r@[k].target@, r@[k].temporary@, match r@[k].backup {
                Some(b) => Some(b@),
                None => None,
            }) == lock_planned(r@[k].source@, *options),
{
    let mut out: Vec<PlannedFile> = Vec::new();
    let mut i: usize = 0;
    while i < entries.len()
        invariant
            0 <= i <= entries@.len(),
            plan_sources(out@) == lock_sources(entries@.subrange(0, i as int), *options),
            forall|k: int|
                0 <= k < out@.len() ==> (#[trigger] out@[k].target@, out@[k].temporary@, match out@[k].backup {
                    Some(b) => Some(b@),
                    None => None,
                }) == lock_planned(out@[k].source@, *options),
        decreases entries@.len() - i,
    {
        proof {
            let s = entries@.subrange(0, i + 1);
            assert(s.drop_last() =~= entries@.subrange(0, i as int));
        }
        let ghost before = out@;
        let e = &entries[i];
        let applies = e.read_error.is_none() && !file_is_encrypted(e.path.as_str(), e.header.as_slice())
            && filter_allows(e.path.as_str(), &options.pattern_filter);
        if applies {
            let planned = PlannedFile {
                source: e.path.clone(),
                target: with_suffix(&e.path, ".age"),
                temporary: with_suffix(&e.path, ".age.tmp"),
                backup: if options.backup_before_lock {
                    Some(with_suffix(&e.path, ".bak"))
                } else {
                    None
                },
            };
            out.push(planned);
            assert(plan_sources(out@) =~= plan_sources(before) + seq![entries@[i as int].path@]);
        } else {
            assert(plan_sources(out@) =~= plan_sources(before) + Seq::<Seq<char>>::empty());
        }
        i = i + 1;
    }
    assert(entries@.subrange(0, entries@.len() as int) =~= entries@);
    out
}

/// The path without its trailing `n` bytes.
pub open spec fn without_suffix(path: Seq<u8>, n: nat) -> Seq<u8> {
    path.subrange(0, path.len() - n)
}

/// Removes the `.age` or `.armor` suffix of a path; `None` when it has neither.
pub fn strip_encrypted_suffix(path: &str) -> (r: Option<String>)
    ensures
        ends_with(path.spec_bytes(), age_suffix()) ==> (r matches Some(t) && encode_utf8(t@)
            == without_suffix(path.spec_bytes(), 4)),
        !ends_with(path.spec_bytes(), age_suffix()) && ends_with(path.spec_bytes(), armor_suffix())
            ==> (r matches Some(t) && encode_utf8(t@) == without_suffix(path.spec_bytes(), 6)),
        !ends_with(path.spec_bytes(), age_suffix()) && !ends_with(path.spec_bytes(), armor_suffix())
            ==> r is None,
{
    let b = path.as_bytes();
    let n: usize = if bytes_end_with(b, age_suffix_bytes().as_slice()) {
        4
    } else if bytes_end_with(b, armor_suffix_bytes().as_slice()) {
        6
    } else {
        return None;
    };
    let cut = b.len() - n;
    proof {
        vstd::utf8::encode_utf8_valid_utf8(path@);
        assert(b@[cut as int] == 0x2E) by {
            assert(b@.subrange(cut as int, b@.len() as int)[0] == b@[cut as int]);
        }
        vstd::utf8::is_char_boundary_iff_not_is_continuation_byte(b@, cut as int);
    }
    let (head, _tail) = path.split_at(cut);
    let t = head.to_owned();
    proof {
        vstd::utf8::encode_utf8_decode_utf8(path@);
    }
    Some(t)
}

/// A path without its `.age` suffix, or else without its `.armor` suffix.
pub open spec fn stripped(path: Seq<u8>) -> Seq<u8> {
    if ends_with(path, age_suffix()) {
        without_suffix(path, 4)
    } else {
        without_suffix(path, 6)
    }
}

/// Whether `source` is the path of an entry an unlock applies to.
pub open spec fn unlock_source(entries: Seq<FileEntry>, options: UnlockOptions, source: Seq<char>) -> bool {
    exists|i: int| 0 <= i < entries.len() && unlock_applies(entries[i], options) && source == entries[i].path@
}

/// Plans an unlock: every readable entry with an encrypted suffix that passes
/// the filter, decrypted to its name without the suffix.
pub fn plan_unlock(entries: &Vec<FileEntry>, options: &UnlockOptions) -> (r: Vec<PlannedFile>)
    ensures
        r@.len() <= entries@.len(),
        forall|k: int|
            0 <= k < r@.len() ==> #[trigger] r@[k].temporary@ == r@[k].target@ + ".tmp"@ && r@[k].backup
                is None && encode_utf8(r@[k].target@) == stripped(encode_utf8(r@[k].source@)),
        forall|k: int| 0 <= k < r@.len() ==> unlock_source(entries@, *options, #[trigger] r@[k].source@),
        forall|i: int|
            0 <= i < entries@.len() && #[trigger] unlock_applies(entries@[i], *options) ==> exists|k: int|
                0 <= k < r@.len() && r@[k].source@ == entries@[i].path@,
{
    let mut out: Vec<PlannedFile> = Vec::new();
    let ghost mut idx: Seq<int> = Seq::empty();
    let ghost mut pos: Seq<int> = Seq::empty();
    let mut i: usize = 0;
    while i < entries.len()
        invariant
            0 <= i <= entries@.len(),
            out@.len() <= i,
            idx.len() == out@.len(),
            forall|k: int|
                0 <= k < out@.len() ==> #[trigger] out@[k].temporary@ == out@[k].target@ + ".tmp"@
                    && out@[k].backup is None && encode_utf8(out@[k].target@) == stripped(
                    encode_utf8(out@[k].source@),
                ),
            forall|k: int|
                0 <= k < idx.len() ==> 0 <= #[trigger] idx[k] < i && unlock_applies(entries@[idx[k]], *options)
                    && out@[k].source@ == entries@[idx[k]].path@,
            pos.len() == i,
            forall|j: int|
                0 <= j < i && unlock_applies(entries@[j], *options) ==> 0 <= #[trigger] pos[j] < out@.len()
                    && out@[pos[j]].source@ == entries@[j].path@,
        decreases entries@.len() - i,
    {
        let e = &entries[i];
        if e.read_error.is_none() && filter_allows(e.path.as_str(), &options.pattern_filter) {
            match strip_encrypted_suffix(e.path.as_str()) {
                Some(target) => {
                    let temporary = with_suffix(&target, ".tmp");
                    let ghost before = out@;
                    out.push(PlannedFile { source: e.path.clone(), target, temporary, backup: None });
                    proof {
                        idx = idx.push(i as int);
                        pos = pos.push(before.len() as int);
                        assert forall|j: int|
                            0 <= j < i + 1 && unlock_applies(entries@[j], *options) implies 0 <= #[trigger] pos[j]
                            < out@.len() && out@[pos[j]].source@ == entries@[j].path@ by {
                            if j < i {
                                assert(out@[pos[j]] == before[pos[j]]);
                            }
                        }
                        assert forall|k: int| 0 <= k < out@.len() implies #[trigger] out@[k].temporary@
                            == out@[k].target@ + ".tmp"@ && out@[k].backup is None && encode_utf8(
                            out@[k].target@,
                        ) == stripped(encode_utf8(out@[k].source@)) by {
                            if k < before.len() {
                                assert(out@[k] == before[k]);
                            }
                        }
                        assert forall|k: int| 0 <= k < idx.len() implies 0 <= #[trigger] idx[k] < i + 1
                            && unlock_applies(entries@[idx[k]], *options) && out@[k].source@
                            == entries@[idx[k]].path@ by {
                            if k < before.len() {
                                assert(out@[k] == before[k]);
                            }
                        }
                    }
                },
                None => {
                    proof {
                        pos = pos.push(0);
                    }
                },
            }
        } else {
            proof {
                pos = pos.push(0);
            }
        }
        i = i + 1;
    }
    assert forall|j: int|
        0 <= j < entries@.len() && #[trigger] unlock_applies(entries@[j], *options) implies exists|k: int|
            0 <= k < out@.len() && out@[k].source@ == entries@[j].path@ by {
        assert(out@[pos[j]].source@ == entries@[j].path@);
    }
    assert forall|k: int| 0 <= k < out@.len() implies unlock_source(entries@, *options, #[trigger] out@[k].source@) by {
        let j = idx[k];
        assert(0 <= j < entries@.len() && unlock_applies(entries@[j], *options) && out@[k].source@ == entries@[j].path@);
    }
    out
}

/// Stage of one file in a lock, unlock or rotate operation.
#[derive(Debug, Clone, Copy, PartialEq, Eq, Structural)]
pub enum FileStage {
    Idle,
    Validated,
    TempWritten,
    Renamed,
    Cleaned,
    Preserved,
    Done,
    Failed,
}

/// What the caller observed after performing the previous action.
#[derive(Debug, Clone, Copy, PartialEq, Eq, Structural)]
pub enum FileEvent {
    Succeeded,
    Failed,
}

/// What the caller must do next for the file.
#[derive(Debug, Clone, Copy, PartialEq, Eq, Structural)]
pub enum FileAction {
    /// Run the validator on the path and passphrase.
    Validate,
    /// Run the cipher into the temporary sibling.
    WriteTemporary,
    /// Rename the temporary onto the target.
    RenameTemporary,
    /// Unlink the source.
    RemoveSource,
    /// Delete the temporary; the source is untouched.
    DeleteTemporary,
    /// Nothing further.
    Nothing,
}

/// The transition of the per-file state machine. Before the rename, a failure
/// only deletes the temporary; the source is removed only after the rename,
/// and only when requested.
pub open spec fn file_transition(stage: FileStage, event: FileEvent, remove_source: bool) -> (FileStage, FileAction) {
    match (stage, event) {
        (FileStage::Idle, _) => (FileStage::Idle, FileAction::Validate),
        (FileStage::Validated, FileEvent::Succeeded) => (FileStage::TempWritten, FileAction::RenameTemporary),
        (FileStage::Validated, FileEvent::Failed) => (FileStage::Failed, FileAction::DeleteTemporary),
        (FileStage::TempWritten, FileEvent::Succeeded) => if remove_source {
            (FileStage::Renamed, FileAction::RemoveSource)
        } else {
            (FileStage::Preserved, FileAction::Nothing)
        },
        (FileStage::TempWritten, FileEvent::Failed) => (FileStage::Failed, FileAction::DeleteTemporary),
        (FileStage::Renamed, FileEvent::Succeeded) => (FileStage::Cleaned, FileAction::Nothing),
        (FileStage::Renamed, FileEvent::Failed) => (FileStage::Preserved, FileAction::Nothing),
        (FileStage::Cleaned, _) => (FileStage::Done, FileAction::Nothing),
        (FileStage::Preserved, _) => (FileStage::Done, FileAction::Nothing),
        (FileStage::Done, _) => (FileStage::Done, FileAction::Nothing),
        (FileStage::Failed, _) => (FileStage::Failed, FileAction::Nothing),
    }
}

/// Starts a file: the caller validates it, then reports the outcome to `validated`.
pub fn start_file() -> (r: (FileStage, FileAction))
    ensures
        r == (FileStage::Idle, FileAction::Validate),
{
    (FileStage::Idle, FileAction::Validate)
}

/// Outcome of validation: on success the caller writes the temporary; on
/// failure nothing was written and the file is failed.
pub fn validated(ok: bool) -> (r: (FileStage, FileAction))
    ensures
        ok ==> r == (FileStage::Validated, FileAction::WriteTemporary),
        !ok ==> r == (FileStage::Failed, FileAction::Nothing),
{
    if ok {
        (FileStage::Validated, FileAction::WriteTemporary)
    } else {
        (FileStage::Failed, FileAction::Nothing)
    }
}

/// Advances one file after the caller performed the action asked for.
pub fn advance_file(stage: FileStage, event: FileEvent, remove_source: bool) -> (r: (FileStage, FileAction))
    ensures
        r == file_transition(stage, event, remove_source),
        r.1 == FileAction::RemoveSource ==> stage == FileStage::TempWritten && event == FileEvent::Succeeded
            && remove_source,
{
    match (stage, event) {
        (FileStage::Idle, _) => (FileStage::Idle, FileAction::Validate),
        (FileStage::Validated, FileEvent::Succeeded) => (FileStage::TempWritten, FileAction::RenameTemporary),
        (FileStage::Validated, FileEvent::Failed) => (FileStage::Failed, FileAction::DeleteTemporary),
        (FileStage::TempWritten, FileEvent::Succeeded) => if remove_source {
            (FileStage::Renamed, FileAction::RemoveSource)
        } else {
            (FileStage::Preserved, FileAction::Nothing)
        },
        (FileStage::TempWritten, FileEvent::Failed) => (FileStage::Failed, FileAction::DeleteTemporary),
        (FileStage::Renamed, FileEvent::Succeeded) => (FileStage::Cleaned, FileAction::Nothing),
        (FileStage::Renamed, FileEvent::Failed) => (FileStage::Preserved, FileAction::Nothing),
        (FileStage::Cleaned, _) => (FileStage::Done, FileAction::Nothing),
        (FileStage::Preserved, _) => (FileStage::Done, FileAction::Nothing),
        (FileStage::Done, _) => (FileStage::Done, FileAction::Nothing),
        (FileStage::Failed, _) => (FileStage::Failed, FileAction::Nothing),
    }
}

/// A failure before the rename never asks to touch the source: the only
/// action is deleting the temporary, so the repository is left as it was.
pub proof fn lemma_failure_before_rename_keeps_source(stage: FileStage, remove_source: bool)
    requires
        stage == FileStage::Validated || stage == FileStage::TempWritten,
    ensures
        file_transition(stage, FileEvent::Failed, remove_source) == (
            FileStage::Failed,
            FileAction::DeleteTemporary,
        ),
{
}

/// Files processed and failed by one operation.
#[derive(Debug, Clone)]
pub struct OperationResult {
    pub processed_files: Vec<String>,
    /// Failed paths, each followed by the reason.
    pub failed_files: Vec<String>,
    pub cancelled: bool,
}

impl OperationResult {
    pub fn new() -> (r: OperationResult)
        ensures
            r.processed_files@.len() == 0,
            r.failed_files@.len() == 0,
            !r.cancelled,
    {
        OperationResult { processed_files: Vec::new(), failed_files: Vec::new(), cancelled: false }
    }

    /// Records the outcome of one file; a failure is listed with its reason and
    /// does not stop the walk.
    pub fn record(&mut self, path: &String, outcome: &Result<(), String>)
        ensures
            final(self).cancelled == old(self).cancelled,
            outcome is Ok ==> final(self).processed_files@.len() == old(self).processed_files@.len() + 1
                && final(self).processed_files@.drop_last() == old(self).processed_files@
                && final(self).processed_files@.last()@ == path@ && final(self).failed_files@
                == old(self).failed_files@,
            outcome matches Err(reason) ==> final(self).processed_files@ == old(self).processed_files@
                && final(self).failed_files@.len() == old(self).failed_files@.len() + 1
                && final(self).failed_files@.drop_last() == old(self).failed_files@
                && final(self).failed_files@.last()@ == path@ + ": "@ + reason@,
    {
        match outcome {
            Ok(()) => {
                self.processed_files.push(path.clone());
            },
            Err(reason) => {
                self.failed_files.push(failure_line(path, reason));
            },
        }
    }

    /// Marks the operation cancelled at a file boundary.
    pub fn cancel(&mut self)
        ensures
            final(self).cancelled,
            final(self).processed_files == old(self).processed_files,
            final(self).failed_files == old(self).failed_files,
    {
        self.cancelled = true;
    }

    /// Closes the walk: an overall error only when files failed and none was processed.
    pub fn finish(self, operation: &str) -> (r: AgeResult<OperationResult>)
        ensures
            r is Err <==> self.processed_files@.len() == 0 && self.failed_files@.len() > 0,
            r matches Ok(o) ==> o.processed_files == self.processed_files && o.failed_files
                == self.failed_files && o.cancelled == self.cancelled,
            r is Err ==> r->Err_0.is_invalid_operation(),
    {
        if self.processed_files.len() == 0 && self.failed_files.len() > 0 {
            Err(AgeError::InvalidOperation {
                operation: operation.to_string(),
                reason: "No file could be processed".to_string(),
            })
        } else {
            Ok(self)
        }
    }
}

/// Health of a repository after verification.
#[derive(Debug, Clone, Copy, PartialEq, Eq, Structural)]
pub enum HealthStatus {
    Healthy,
    Degraded,
    Unhealthy,
}

/// Healthy when nothing failed; Degraded when some files verified and some
/// failed; Unhealthy when files failed and none verified.
pub fn overall_health(verified: usize, failed: usize) -> (r: HealthStatus)
    ensures
        failed == 0 ==> r == HealthStatus::Healthy,
        failed > 0 && verified > 0 ==> r == HealthStatus::Degraded,
        failed > 0 && verified == 0 ==> r == HealthStatus::Unhealthy,
{
    if failed == 0 {
        HealthStatus::Healthy
    } else if verified > 0 {
        HealthStatus::Degraded
    } else {
        HealthStatus::Unhealthy
    }
}

} // verus!
