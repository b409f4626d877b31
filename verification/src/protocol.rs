//! The line protocol: trimming an input line and dispatching it to the
//! fixed reply it earns.
//!
//! A line is a sequence of characters as read off the wire, terminator
//! included. The server strips the terminator and any surrounding blanks,
//! then matches the remainder exactly and case-sensitively: `Merry` earns
//! the greeting, `Chicken` earns the picture, and everything else is
//! answered with a question mark.

use vstd::prelude::*;

verus! {

/// Reply sent for the `Chicken` command: a fixed picture, reproduced
/// byte for byte with no terminator appended beyond what it embeds.
pub const CHICKEN_ART: &'static str = r#"
          ████████        
        ██      ▒▒██      
      ██    ▒▒▒▒▒▒▓▓██    
    ██  ░░▒▒▒▒▒▒▒▒▒▒▓▓██  
    ██░░▒▒▒▒▒▒▒▒▒▒▒▒▒▒██  
  ██  ░░▒▒▒▒▒▒▒▒░░▒▒▒▒▓▓██
  ██░░░░▒▒▒▒▒▒▒▒▒▒░░▒▒▓▓██
  ██░░▒▒▒▒▒▒▒▒▒▒░░░░▒▒▓▓██
    ██▒▒▒▒▒▒▒▒▒▒░░▒▒▒▒██  
  ░░██░░▒▒▒▒▒▒▒▒▒▒▒▒▓▓██  
    ░░██▒▒▒▒▒▒▒▒▒▒▓▓██    
        ██▒▒▒▒▒▒▓▓██      
        ██▒▒▒▒▒▒▓▓██      
          ████████        
          ██░░░░██        
          ██░░░░██        
          ██  ░░██        
        ██    ░░░░██      
      ██    ████░░░░██    
        ████    ████      
"#;

/// Blank characters a line may carry around a command: the ASCII
/// whitespace set, the line terminator among them.
pub open spec fn is_blank(c: char) -> bool {
    c == ' ' || c == '\t' || c == '\n' || c == '\r' || c == '\u{b}' || c == '\u{c}'
}

fn is_blank_exec(c: char) -> (b: bool)
    ensures
        b == is_blank(c),
{
    c == ' ' || c == '\t' || c == '\n' || c == '\r' || c == '\u{b}' || c == '\u{c}'
}

/// The sequence with its leading blanks removed.
pub open spec fn trim_front(s: Seq<char>) -> Seq<char>
    decreases s.len(),
{
    if s.len() > 0 && is_blank(s.first()) {
        trim_front(s.drop_first())
    } else {
        s
    }
}

/// The sequence with its trailing blanks removed.
pub open spec fn trim_back(s: Seq<char>) -> Seq<char>
    decreases s.len(),
{
    if s.len() > 0 && is_blank(s.last()) {
        trim_back(s.drop_last())
    } else {
        s
    }
}

/// The sequence with blanks removed from both ends: what a received line
/// is reduced to before it is matched against the commands.
pub open spec fn trim_spec(s: Seq<char>) -> Seq<char> {
    trim_back(trim_front(s))
}

proof fn lemma_trim_front_range(s: Seq<char>, i: int)
    requires
        0 <= i <= s.len(),
        forall|j: int| 0 <= j < i ==> is_blank(s[j]),
        i == s.len() || !is_blank(s[i]),
    ensures
        trim_front(s) == s.subrange(i, s.len() as int),
    decreases i,
{
    if i == 0 {
        assert(s.subrange(0, s.len() as int) =~= s);
    } else {
        let t = s.drop_first();
        assert(forall|j: int| 0 <= j < i - 1 ==> is_blank(t[j]));
        assert(i - 1 == t.len() || !is_blank(t[i - 1]));
        lemma_trim_front_range(t, i - 1);
        assert(t.subrange(i - 1, t.len() as int) =~= s.subrange(i, s.len() as int));
    }
}

proof fn lemma_trim_back_range(s: Seq<char>, e: int)
    requires
        0 <= e <= s.len(),
        forall|j: int| e <= j < s.len() ==> is_blank(s[j]),
        e == 0 || !is_blank(s[e - 1]),
    ensures
        trim_back(s) == s.subrange(0, e),
    decreases s.len() - e,
{
    if e == s.len() {
        assert(s.subrange(0, s.len() as int) =~= s);
    } else {
        let t = s.drop_last();
        assert(forall|j: int| e <= j < t.len() ==> is_blank(t[j]));
        lemma_trim_back_range(t, e);
        assert(t.subrange(0, e) =~= s.subrange(0, e));
    }
}

proof fn lemma_trim_spec_range(s: Seq<char>, i: int, e: int)
    requires
        0 <= i <= e <= s.len(),
        forall|j: int| 0 <= j < i ==> is_blank(s[j]),
        i == s.len() || !is_blank(s[i]),
        forall|j: int| e <= j < s.len() ==> is_blank(s[j]),
        e == i || !is_blank(s[e - 1]),
    ensures
        trim_spec(s) == s.subrange(i, e),
{
    lemma_trim_front_range(s, i);
    let t = s.subrange(i, s.len() as int);
    assert(forall|j: int| e - i <= j < t.len() ==> is_blank(t[j]));
    lemma_trim_back_range(t, e - i);
    assert(t.subrange(0, e - i) =~= s.subrange(i, e));
}

/// Removes leading and trailing blanks from a line, terminator included.
pub fn trim(line: &str) -> (r: &str)
    ensures
        r@ == trim_spec(line@),
{
    let n = line.unicode_len();
    let mut start: usize = 0;
    while start < n && is_blank_exec(line.get_char(start))
        invariant
            n == line@.len(),
            start <= n,
            forall|j: int| 0 <= j < start ==> is_blank(line@[j]),
        decreases n - start,
    {
        start = start + 1;
    }
    let mut end: usize = n;
    while end > start && is_blank_exec(line.get_char(end - 1))
        invariant
            n == line@.len(),
            start <= end <= n,
            forall|j: int| end <= j < n ==> is_blank(line@[j]),
        decreases end,
    {
        end = end - 1;
    }
    proof {
        lemma_trim_spec_range(line@, start as int, end as int);
    }
    line.substring_char(start, end)
}

/// Character-for-character equality of two string slices.
pub fn str_eq(a: &str, b: &str) -> (r: bool)
    ensures
        r == (a@ == b@),
{
    let an = a.unicode_len();
    let bn = b.unicode_len();
    if an != bn {
        return false;
    }
    let mut i: usize = 0;
    while i < an
        invariant
            an == a@.len(),
            an == b@.len(),
            i <= an,
            forall|j: int| 0 <= j < i ==> a@[j] == b@[j],
        decreases an - i,
    {
        if a.get_char(i) != b.get_char(i) {
            return false;
        }
        i = i + 1;
    }
    proof {
        assert(a@ =~= b@);
    }
    true
}

/// The greeting command.
pub open spec fn merry_cmd() -> Seq<char> {
    "Merry"@
}

/// Reply owed to the greeting command.
pub open spec fn christmas_reply() -> Seq<char> {
    "Christmas\n"@
}

/// The command that asks for the picture.
pub open spec fn chicken_cmd() -> Seq<char> {
    "Chicken"@
}

/// Reply owed to the picture command.
pub open spec fn chicken_reply() -> Seq<char> {
    CHICKEN_ART@
}

/// Reply owed to every unrecognized line.
pub open spec fn unknown_reply() -> Seq<char> {
    "?\n"@
}

/// The reply owed to one received line: dispatch on the trimmed content,
/// exact and case-sensitive.
pub open spec fn reply_spec(line: Seq<char>) -> Seq<char> {
    if trim_spec(line) == merry_cmd() {
        christmas_reply()
    } else if trim_spec(line) == chicken_cmd() {
        chicken_reply()
    } else {
        unknown_reply()
    }
}

/// Computes the reply owed to one input line.
pub fn reply_for_line(line: &str) -> (r: String)
    ensures
        r@ == reply_spec(line@),
{
    let t = trim(line);
    if str_eq(t, "Merry") {
        "Christmas\n".to_owned()
    } else if str_eq(t, "Chicken") {
        CHICKEN_ART.to_owned()
    } else {
        "?\n".to_owned()
    }
}

/// Law: any line that trims to the greeting command is answered with the
/// greeting reply, and nothing else.
pub proof fn lemma_reply_merry(line: Seq<char>)
    requires
        trim_spec(line) == merry_cmd(),
    ensures
        reply_spec(line) == christmas_reply(),
{
}

/// Law: any line that trims to the picture command is answered with the
/// picture, and nothing else.
pub proof fn lemma_reply_chicken(line: Seq<char>)
    requires
        trim_spec(line) == chicken_cmd(),
    ensures
        reply_spec(line) == chicken_reply(),
{
    reveal_strlit("Merry");
    reveal_strlit("Chicken");
    assert(merry_cmd().len() == 5);
    assert(chicken_cmd().len() == 7);
}

/// Law: any line whose trimmed content is neither command — an unknown
/// word, a different case, an empty or all-blank line — is answered with
/// the question mark, and nothing else.
pub proof fn lemma_reply_unknown(line: Seq<char>)
    requires
        trim_spec(line) != merry_cmd(),
        trim_spec(line) != chicken_cmd(),
    ensures
        reply_spec(line) == unknown_reply(),
{
}

} // verus!
