//! Commit metadata and its extraction from raw commit fields.

use vstd::prelude::*;
use vstd::string::StrSliceExecFns;

verus! {

/// An immutable snapshot of one commit's metadata. Every instance handed to
/// a caller describes a commit that existed in the repository at read time.
#[derive(Debug, Clone)]
pub struct CommitMetadata {
    /// Hex form of the commit's content-addressed identifier.
    pub hash: String,
    /// The author's display name, or the literal "Unknown" when absent.
    pub author: String,
    /// The author's recorded time as UTC seconds since the epoch, or the
    /// wall clock at extraction time when the recorded value is not
    /// representable.
    pub date: i64,
    /// The commit message with leading and trailing whitespace removed;
    /// empty when the commit carries none.
    pub message: String,
}

/// A character that trimming removes: the Unicode white-space characters.
pub open spec fn is_wspace(c: char) -> bool {
    c == ' ' || c == '\t' || c == '\n' || c == '\r' || c == '\u{000B}' || c == '\u{000C}'
        || c == '\u{0085}' || c == '\u{00A0}' || c == '\u{1680}'
        || (0x2000 <= c as u32 && c as u32 <= 0x200A)
        || c == '\u{2028}' || c == '\u{2029}' || c == '\u{202F}'
        || c == '\u{205F}' || c == '\u{3000}'
}

/// Decides `is_wspace` on a concrete character.
pub fn is_wspace_char(c: char) -> (r: bool)
    ensures
        r == is_wspace(c),
{
    c == ' ' || c == '\t' || c == '\n' || c == '\r' || c == '\u{000B}' || c == '\u{000C}'
        || c == '\u{0085}' || c == '\u{00A0}' || c == '\u{1680}'
        || (0x2000 <= c as u32 && c as u32 <= 0x200A)
        || c == '\u{2028}' || c == '\u{2029}' || c == '\u{202F}'
        || c == '\u{205F}' || c == '\u{3000}'
}

/// The sequence with its leading white-space characters removed.
pub open spec fn trim_start_spec(s: Seq<char>) -> Seq<char>
    decreases s.len(),
{
    if s.len() == 0 {
        s
    } else if is_wspace(s[0]) {
        trim_start_spec(s.subrange(1, s.len() as int))
    } else {
        s
    }
}

/// The sequence with its trailing white-space characters removed.
pub open spec fn trim_end_spec(s: Seq<char>) -> Seq<char>
    decreases s.len(),
{
    if s.len() == 0 {
        s
    } else if is_wspace(s[s.len() - 1]) {
        trim_end_spec(s.subrange(0, s.len() - 1))
    } else {
        s
    }
}

/// The sequence with leading and trailing white space removed.
pub open spec fn trim_spec(s: Seq<char>) -> Seq<char> {
    trim_end_spec(trim_start_spec(s))
}

/// Whether a sequence carries no leading and no trailing white space.
pub open spec fn is_trimmed(s: Seq<char>) -> bool {
    s.len() == 0 || (!is_wspace(s[0]) && !is_wspace(s[s.len() - 1]))
}

proof fn lemma_trim_start_first(s: Seq<char>)
    ensures
        trim_start_spec(s).len() > 0 ==> !is_wspace(trim_start_spec(s)[0]),
    decreases s.len(),
{
    if s.len() > 0 && is_wspace(s[0]) {
        lemma_trim_start_first(s.subrange(1, s.len() as int));
    }
}

proof fn lemma_trim_end_last(s: Seq<char>)
    ensures
        trim_end_spec(s).len() > 0 ==> !is_wspace(trim_end_spec(s)[trim_end_spec(s).len() - 1]),
    decreases s.len(),
{
    if s.len() > 0 && is_wspace(s[s.len() - 1]) {
        lemma_trim_end_last(s.subrange(0, s.len() - 1));
    }
}

proof fn lemma_trim_end_keeps_first(s: Seq<char>)
    requires
        s.len() > 0,
    ensures
        trim_end_spec(s).len() > 0 ==> trim_end_spec(s)[0] == s[0],
    decreases s.len(),
{
    if is_wspace(s[s.len() - 1]) {
        if s.len() > 1 {
            lemma_trim_end_keeps_first(s.subrange(0, s.len() - 1));
        } else {
            let sub = s.subrange(0, s.len() - 1);
            assert(sub.len() == 0);
            assert(trim_end_spec(sub) == sub);
        }
    }
}

/// Law: trimming leaves no leading and no trailing white space.
pub proof fn lemma_trim_spec_trimmed(s: Seq<char>)
    ensures
        is_trimmed(trim_spec(s)),
{
    let t = trim_start_spec(s);
    lemma_trim_start_first(s);
    lemma_trim_end_last(t);
    if t.len() > 0 {
        lemma_trim_end_keeps_first(t);
    }
}

/// Law: trimming a sequence that is already trimmed changes nothing.
pub proof fn lemma_trim_noop_on_trimmed(s: Seq<char>)
    requires
        is_trimmed(s),
    ensures
        trim_spec(s) == s,
{
}

/// Law: trimming is idempotent.
pub proof fn lemma_trim_spec_idempotent(s: Seq<char>)
    ensures
        trim_spec(trim_spec(s)) == trim_spec(s),
{
    lemma_trim_spec_trimmed(s);
    lemma_trim_noop_on_trimmed(trim_spec(s));
}

/// Removes leading and trailing white space from a string, character by
/// character.
pub fn trim_str(s: &str) -> (r: String)
    ensures
        r@ == trim_spec(s@),
{
    let n: usize = s.unicode_len();
    proof {
        assert(s@.subrange(0, n as int) =~= s@);
    }
    let mut i: usize = 0;
    while i < n && is_wspace_char(s.get_char(i))
        invariant
            n == s@.len(),
            i <= n,
            trim_start_spec(s@) == trim_start_spec(s@.subrange(i as int, n as int)),
        decreases n - i,
    {
        proof {
            let t = s@.subrange(i as int, n as int);
            assert(t[0] == s@[i as int]);
            assert(t.subrange(1, t.len() as int) =~= s@.subrange(i as int + 1, n as int));
        }
        i = i + 1;
    }
    let mut j: usize = n;
    while j > i && is_wspace_char(s.get_char(j - 1))
        invariant
            n == s@.len(),
            i <= j <= n,
            trim_start_spec(s@) == trim_start_spec(s@.subrange(i as int, n as int)),
            i < n ==> !is_wspace(s@[i as int]),
            trim_end_spec(s@.subrange(i as int, n as int)) == trim_end_spec(
                s@.subrange(i as int, j as int),
            ),
        decreases j,
    {
        proof {
            let t = s@.subrange(i as int, j as int);
            assert(t[t.len() - 1] == s@[j - 1]);
            assert(t.subrange(0, t.len() - 1) =~= s@.subrange(i as int, j as int - 1));
        }
        j = j - 1;
    }
    proof {
        if i == n {
            assert(s@.subrange(i as int, n as int) =~= Seq::<char>::empty());
            assert(s@.subrange(i as int, j as int) =~= Seq::<char>::empty());
            assert(trim_spec(s@) == s@.subrange(i as int, j as int));
        } else {
            assert(s@.subrange(i as int, n as int)[0] == s@[i as int]);
            assert(trim_start_spec(s@) == s@.subrange(i as int, n as int));
            if j == i {
                assert(s@.subrange(i as int, j as int) =~= Seq::<char>::empty());
            } else {
                assert(s@.subrange(i as int, j as int)[j - i - 1] == s@[j - 1]);
            }
            assert(trim_spec(s@) == s@.subrange(i as int, j as int));
        }
    }
    let picked = s.substring_char(i, j);
    picked.to_owned()
}

/// The author field recorded for a possibly absent name: the name itself, or
/// the fallback "Unknown".
pub open spec fn author_field(name: Option<String>) -> Seq<char> {
    match name {
        Some(n) => n@,
        None => "Unknown"@,
    }
}

/// The message text recorded for a possibly absent message: the message
/// itself, or the empty string.
pub open spec fn message_text(message: Option<String>) -> Seq<char> {
    match message {
        Some(m) => m@,
        None => Seq::empty(),
    }
}

/// Assembles the metadata snapshot from the raw fields read off a commit:
/// the hash is taken as given, an absent author name falls back to
/// "Unknown", the date is taken as given (the caller has already resolved
/// the fallback to "now"), and the message is trimmed, an absent one taken
/// as empty.
pub fn build_metadata(
    hash: String,
    author_name: Option<String>,
    date: i64,
    message: Option<String>,
) -> (m: CommitMetadata)
    ensures
        m.hash@ == hash@,
        m.author@ == author_field(author_name),
        m.date == date,
        m.message@ == trim_spec(message_text(message)),
        is_trimmed(m.message@),
{
    proof {
        lemma_trim_spec_trimmed(message_text(message));
    }
    let author = match author_name {
        Some(n) => n,
        None => "Unknown".to_owned(),
    };
    let message_trimmed = match message {
        Some(m) => trim_str(m.as_str()),
        None => String::new(),
    };
    CommitMetadata { hash, author, date, message: message_trimmed }
}

} // verus!
