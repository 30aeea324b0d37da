//! Passphrase and path policy applied before anything reaches the cipher.
//! A refusal names the rule that fired; inputs are never sanitised.
use vstd::prelude::*;
use crate::error::{AgeError, AgeResult};
use vstd::string::StringSliceAdditionalSpecFns;

verus! {

/// Minimum passphrase length, in characters.
pub const MIN_PASSPHRASE_CHARS: usize = 8;

/// Whether a byte continues a multi-byte UTF-8 character.
pub open spec fn is_continuation(x: u8) -> bool {
    0x80 <= x < 0xC0
}

/// Number of characters of UTF-8 text: the bytes that start a character.
pub open spec fn char_count(b: Seq<u8>) -> nat
    decreases b.len(),
{
    if b.len() == 0 {
        0
    } else {
        char_count(b.drop_last()) + if is_continuation(b.last()) {
            0nat
        } else {
            1nat
        }
    }
}

/// Bytes refused on their own: backtick, semicolon, and control bytes
/// (newline included).
pub open spec fn forbidden_byte(x: u8) -> bool {
    x == 0x60 || x == 0x3B || x < 0x20 || x == 0x7F
}

/// Byte pairs refused: `$(`, `&&` and `||`.
pub open spec fn forbidden_pair(x: u8, y: u8) -> bool {
    (x == 0x24 && y == 0x28) || (x == 0x26 && y == 0x26) || (x == 0x7C && y == 0x7C)
}

/// Whether a shell-injection sequence starts at position `i`.
pub open spec fn injection_at(b: Seq<u8>, i: int) -> bool {
    forbidden_byte(b[i]) || (i + 1 < b.len() && forbidden_pair(b[i], b[i + 1]))
}

pub open spec fn has_injection(b: Seq<u8>) -> bool {
    exists|i: int| 0 <= i < b.len() && #[trigger] injection_at(b, i)
}

pub open spec fn all_digits(b: Seq<u8>) -> bool {
    forall|i: int| 0 <= i < b.len() ==> 0x30 <= #[trigger] b[i] <= 0x39
}

/// The passphrase rule that refuses `b`, checked in order: length, injection,
/// digits only.
pub open spec fn passphrase_rule(b: Seq<u8>) -> Option<Seq<char>> {
    if char_count(b) < MIN_PASSPHRASE_CHARS {
        Some("passphrase.length"@)
    } else if has_injection(b) {
        Some("passphrase.injection"@)
    } else if all_digits(b) {
        Some("passphrase.digits"@)
    } else {
        None
    }
}

/// Whether a `..` component starts at position `i` of a path.
pub open spec fn dotdot_at(p: Seq<u8>, i: int) -> bool {
    &&& i + 2 <= p.len()
    &&& p[i] == 0x2E && p[i + 1] == 0x2E
    &&& i == 0 || p[i - 1] == 0x2F
    &&& i + 2 == p.len() || p[i + 2] == 0x2F
}

pub open spec fn has_dotdot(p: Seq<u8>) -> bool {
    exists|i: int| 0 <= i < p.len() && #[trigger] dotdot_at(p, i)
}

/// Whether an absolute path lies under the root: the root is a prefix that
/// ends at a component boundary.
pub open spec fn under_root(p: Seq<u8>, root: Seq<u8>) -> bool {
    &&& root.len() <= p.len()
    &&& p.subrange(0, root.len() as int) == root
    &&& p.len() == root.len() || p[root.len() as int] == 0x2F || (root.len() > 0 && root.last()
        == 0x2F)
}

/// Whether a component starting at `i` is hidden: it begins with a dot that is
/// not followed by a separator or the end.
pub open spec fn hidden_at(p: Seq<u8>, i: int) -> bool {
    &&& i + 1 < p.len()
    &&& p[i] == 0x2E
    &&& i == 0 || p[i - 1] == 0x2F
    &&& p[i + 1] != 0x2F
}

pub open spec fn has_hidden(p: Seq<u8>) -> bool {
    exists|i: int| 0 <= i < p.len() && #[trigger] hidden_at(p, i)
}

pub open spec fn ends_with(p: Seq<u8>, suffix: Seq<u8>) -> bool {
    suffix.len() <= p.len() && p.subrange(p.len() - suffix.len(), p.len() as int) == suffix
}

/// Whether the path ends in `.` followed by one of the extensions.
pub open spec fn extension_allowed(p: Seq<u8>, exts: Seq<Seq<u8>>) -> bool {
    exists|k: int| 0 <= k < exts.len() && #[trigger] ends_with(p, seq![0x2Eu8] + exts[k])
}

/// The path rule that refuses `p` under `root`: escape first, then, in strict
/// mode, hidden components and extensions outside the allow-list.
pub open spec fn path_rule(p: Seq<u8>, root: Seq<u8>, strict: bool, exts: Seq<Seq<u8>>) -> Option<Seq<char>> {
    if has_dotdot(p) || (p.len() > 0 && p[0] == 0x2F && !under_root(p, root)) {
        Some("path.escape"@)
    } else if strict && has_hidden(p) {
        Some("path.hidden"@)
    } else if strict && !extension_allowed(p, exts) {
        Some("path.extension"@)
    } else {
        None
    }
}

/// Refusal carrying the rule's name.
pub open spec fn refused_by(r: AgeResult<()>, rule: Option<Seq<char>>) -> bool {
    match rule {
        None => r is Ok,
        Some(name) => r matches Err(AgeError::SecurityViolation { rule }) && rule@ == name,
    }
}

/// Number of characters of UTF-8 text.
pub fn count_chars(b: &[u8]) -> (r: usize)
    ensures
        r as nat == char_count(b@),
{
    let mut n: usize = 0;
    let mut i: usize = 0;
    while i < b.len()
        invariant
            0 <= i <= b@.len(),
            n as nat == char_count(b@.subrange(0, i as int)),
            n <= i,
        decreases b@.len() - i,
    {
        proof {
            let s = b@.subrange(0, i + 1);
            assert(s.drop_last() =~= b@.subrange(0, i as int));
        }
        if !(0x80 <= b[i] && b[i] < 0xC0) {
            n = n + 1;
        }
        i = i + 1;
    }
    assert(b@.subrange(0, b@.len() as int) =~= b@);
    n
}

fn find_injection(b: &[u8]) -> (r: bool)
    ensures
        r == has_injection(b@),
{
    let mut i: usize = 0;
    while i < b.len()
        invariant
            0 <= i <= b@.len(),
            forall|j: int| 0 <= j < i ==> !#[trigger] injection_at(b@, j),
        decreases b@.len() - i,
    {
        let x = b[i];
        if x == 0x60 || x == 0x3B || x < 0x20 || x == 0x7F {
            assert(injection_at(b@, i as int));
            return true;
        }
        if i + 1 < b.len() {
            let y = b[i + 1];
            if (x == 0x24 && y == 0x28) || (x == 0x26 && y == 0x26) || (x == 0x7C && y == 0x7C) {
                assert(injection_at(b@, i as int));
                return true;
            }
        }
        i = i + 1;
    }
    false
}

fn only_digits(b: &[u8]) -> (r: bool)
    ensures
        r == all_digits(b@),
{
    let mut i: usize = 0;
    while i < b.len()
        invariant
            0 <= i <= b@.len(),
            forall|j: int| 0 <= j < i ==> 0x30 <= #[trigger] b@[j] <= 0x39,
        decreases b@.len() - i,
    {
        if b[i] < 0x30 || b[i] > 0x39 {
            return false;
        }
        i = i + 1;
    }
    true
}

fn find_dotdot(p: &[u8]) -> (r: bool)
    ensures
        r == has_dotdot(p@),
{
    let mut i: usize = 0;
    while i < p.len()
        invariant
            0 <= i <= p@.len(),
            forall|j: int| 0 <= j < i ==> !#[trigger] dotdot_at(p@, j),
        decreases p@.len() - i,
    {
        if i + 1 < p.len() && p[i] == 0x2E && p[i + 1] == 0x2E && (i == 0 || p[i - 1] == 0x2F) && (i + 2
            == p.len() || p[i + 2] == 0x2F) {
            assert(dotdot_at(p@, i as int));
            return true;
        }
        i = i + 1;
    }
    false
}

fn find_hidden(p: &[u8]) -> (r: bool)
    ensures
        r == has_hidden(p@),
{
    let mut i: usize = 0;
    while i < p.len()
        invariant
            0 <= i <= p@.len(),
            forall|j: int| 0 <= j < i ==> !#[trigger] hidden_at(p@, j),
        decreases p@.len() - i,
    {
        if i + 1 < p.len() && p[i] == 0x2E && (i == 0 || p[i - 1] == 0x2F) && p[i + 1] != 0x2F {
            assert(hidden_at(p@, i as int));
            return true;
        }
        i = i + 1;
    }
    false
}

fn has_prefix(p: &[u8], prefix: &[u8]) -> (r: bool)
    ensures
        r == (prefix@.len() <= p@.len() && p@.subrange(0, prefix@.len() as int) == prefix@),
{
    if prefix.len() > p.len() {
        return false;
    }
    let mut i: usize = 0;
    while i < prefix.len()
        invariant
            prefix@.len() <= p@.len(),
            0 <= i <= prefix@.len(),
            forall|j: int| 0 <= j < i ==> p@[j] == prefix@[j],
        decreases prefix@.len() - i,
    {
        if p[i] != prefix[i] {
            assert(p@.subrange(0, prefix@.len() as int)[i as int] != prefix@[i as int]);
            return false;
        }
        i = i + 1;
    }
    assert(p@.subrange(0, prefix@.len() as int) =~= prefix@);
    true
}

fn is_under_root(p: &[u8], root: &[u8]) -> (r: bool)
    ensures
        r == under_root(p@, root@),
{
    if !has_prefix(p, root) {
        return false;
    }
    p.len() == root.len() || p[root.len()] == 0x2F || (root.len() > 0 && root[root.len() - 1] == 0x2F)
}

/// Whether `p` ends in a dot followed by `ext`.
fn has_extension(p: &[u8], ext: &[u8]) -> (r: bool)
    ensures
        r == ends_with(p@, seq![0x2Eu8] + ext@),
{
    let n = ext.len();
    if n >= p.len() {
        assert((seq![0x2Eu8] + ext@).len() > p@.len());
        return false;
    }
    let start = p.len() - n - 1;
    if p[start] != 0x2E {
        assert(p@.subrange(start as int, p@.len() as int)[0] != (seq![0x2Eu8] + ext@)[0]);
        return false;
    }
    let mut i: usize = 0;
    while i < n
        invariant
            n == ext@.len(),
            start + n + 1 == p@.len(),
            p@.len() <= usize::MAX,
            0 <= i <= n,
            forall|j: int| 0 <= j < i ==> p@[start + 1 + j] == ext@[j],
        decreases n - i,
    {
        if p[start + 1 + i] != ext[i] {
            assert(p@.subrange(start as int, p@.len() as int)[i + 1] != (seq![0x2Eu8] + ext@)[i + 1]);
            return false;
        }
        i = i + 1;
    }
    assert(p@.subrange(start as int, p@.len() as int) =~= seq![0x2Eu8] + ext@);
    true
}

/// Gatekeeper for passphrases and file paths.
#[derive(Debug, Clone)]
pub struct SecurityValidator {
    /// In strict mode hidden files and extensions outside the allow-list are refused.
    pub strict_mode: bool,
    pub allowed_extensions: Vec<String>,
}

/// Byte views of the allow-listed extensions.
pub open spec fn extension_bytes(exts: Seq<String>) -> Seq<Seq<u8>> {
    Seq::new(exts.len(), |k: int| vstd::utf8::encode_utf8(exts[k]@))
}

impl SecurityValidator {
    /// A validator with an empty extension allow-list.
    pub fn new(strict_mode: bool) -> (r: SecurityValidator)
        ensures
            r.strict_mode == strict_mode,
            r.allowed_extensions@.len() == 0,
    {
        SecurityValidator { strict_mode, allowed_extensions: Vec::new() }
    }

    /// A validator with the given extension allow-list (extensions without the dot).
    pub fn with_allowed_extensions(strict_mode: bool, allowed_extensions: Vec<String>) -> (r: SecurityValidator)
        ensures
            r.strict_mode == strict_mode,
            r.allowed_extensions == allowed_extensions,
    {
        SecurityValidator { strict_mode, allowed_extensions }
    }

    /// Refuses passphrases shorter than eight characters, passphrases holding a
    /// shell-injection sequence or a control byte, and passphrases of digits only.
    pub fn validate_passphrase(&self, passphrase: &str) -> (r: AgeResult<()>)
        ensures
            refused_by(r, passphrase_rule(passphrase.spec_bytes())),
    {
        let b = passphrase.as_bytes();
        if count_chars(b) < MIN_PASSPHRASE_CHARS {
            return Err(AgeError::SecurityViolation { rule: "passphrase.length".to_string() });
        }
        if find_injection(b) {
            return Err(AgeError::SecurityViolation { rule: "passphrase.injection".to_string() });
        }
        if only_digits(b) {
            return Err(AgeError::SecurityViolation { rule: "passphrase.digits".to_string() });
        }
        Ok(())
    }

    /// Refuses paths with a `..` component and absolute paths outside `root`;
    /// in strict mode also hidden components and extensions outside the allow-list.
    pub fn validate_file_path(&self, path: &str, root: &str) -> (r: AgeResult<()>)
        ensures
            refused_by(
                r,
                path_rule(
                    path.spec_bytes(),
                    root.spec_bytes(),
                    self.strict_mode,
                    extension_bytes(self.allowed_extensions@),
                ),
            ),
    {
        let p = path.as_bytes();
        let escapes = find_dotdot(p) || (p.len() > 0 && p[0] == 0x2F && !is_under_root(p, root.as_bytes()));
        if escapes {
            return Err(AgeError::SecurityViolation { rule: "path.escape".to_string() });
        }
        if self.strict_mode {
            if find_hidden(p) {
                return Err(AgeError::SecurityViolation { rule: "path.hidden".to_string() });
            }
            let ghost exts = extension_bytes(self.allowed_extensions@);
            let mut allowed = false;
            let mut k: usize = 0;
            while k < self.allowed_extensions.len()
                invariant
                    0 <= k <= self.allowed_extensions@.len(),
                    exts == extension_bytes(self.allowed_extensions@),
                    allowed == exists|j: int| 0 <= j < k && #[trigger] ends_with(p@, seq![0x2Eu8] + exts[j]),
                decreases self.allowed_extensions@.len() - k,
            {
                let e = self.allowed_extensions[k].as_str().as_bytes();
                let hit = has_extension(p, e);
                proof {
                    if hit {
                        assert(ends_with(p@, seq![0x2Eu8] + exts[k as int]));
                    }
                }
                allowed = allowed || hit;
                k = k + 1;
            }
            if !allowed {
                return Err(AgeError::SecurityViolation { rule: "path.extension".to_string() });
            }
        }
        Ok(())
    }
}

/// The validator refuses every passphrase shorter than eight characters, every
/// passphrase holding (at any position `i`) `$(`, a backtick, `;`, a newline or
/// another control byte, and every path with a `..` component.
pub proof fn lemma_validator_refusal(
    passphrase: Seq<u8>,
    i: int,
    path: Seq<u8>,
    root: Seq<u8>,
    strict: bool,
    exts: Seq<Seq<u8>>,
)
    ensures
        char_count(passphrase) < MIN_PASSPHRASE_CHARS ==> passphrase_rule(passphrase) == Some(
            "passphrase.length"@,
        ),
        0 <= i < passphrase.len() && (passphrase[i] == 0x60 || passphrase[i] == 0x3B || passphrase[i] == 0x0A
            || passphrase[i] < 0x20 || passphrase[i] == 0x7F || (i + 1 < passphrase.len() && passphrase[i]
            == 0x24 && passphrase[i + 1] == 0x28)) ==> passphrase_rule(passphrase) is Some,
        has_dotdot(path) ==> path_rule(path, root, strict, exts) == Some("path.escape"@),
{
    if 0 <= i < passphrase.len() {
        assert(injection_at(passphrase, i) == (forbidden_byte(passphrase[i]) || (i + 1 < passphrase.len()
            && forbidden_pair(passphrase[i], passphrase[i + 1]))));
    }
}

} // verus!
