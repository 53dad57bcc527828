//! Small status-line fragments: the spell-checking toggle, the git branch
//! label and the word count.
use vstd::prelude::*;
use crate::NARROW_WIDTH;
use crate::text::{push_signed_decimal, signed_decimal};

verus! {

/// The spell-checking settings to apply: whether checking is on, and the
/// languages to check against, comma-separated.
#[derive(Debug, PartialEq, Eq)]
pub struct SpellSettings {
    pub spell: bool,
    pub spelllang: String,
}

/// The languages set when checking is switched on or off.
pub open spec fn spell_languages(spell: bool) -> Seq<char> {
    if spell {
        seq!['e', 'n', '_', 'u', 's', ',', 'd', 'e']
    } else {
        seq!['e', 'n']
    }
}

/// Toggles spell checking: from on to off with the language `en`, from off
/// to on with the languages `en_us,de`.
pub fn spell_toggle(spell_on: bool) -> (r: SpellSettings)
    ensures
        r.spell == !spell_on,
        r.spelllang@ == spell_languages(!spell_on),
{
    proof {
        reveal_strlit("en");
        reveal_strlit("en_us,de");
    }
    if spell_on {
        let r = SpellSettings { spell: false, spelllang: String::from_str("en") };
        assert(r.spelllang@ =~= spell_languages(false));
        r
    } else {
        let r = SpellSettings { spell: true, spelllang: String::from_str("en_us,de") };
        assert(r.spelllang@ =~= spell_languages(true));
        r
    }
}

/// What `str::to_uppercase` makes of a text.
pub uninterp spec fn upper_of(s: Seq<char>) -> Seq<char>;

/// Relies on `str::to_uppercase`: the upper-case form of a text, which
/// depends on its characters alone.
#[verifier::external_body]
fn uppercase(s: &str) -> (r: String)
    ensures
        r@ == upper_of(s@),
{
    s.to_uppercase()
}

/// The first `k` characters of `s`, or all of it when it is shorter.
pub open spec fn first_chars(s: Seq<char>, k: nat) -> Seq<char> {
    if s.len() <= k {
        s
    } else {
        s.take(k as int)
    }
}

/// The branch label for an upper-case branch name: a space, then the name,
/// cut to two characters on a narrow window.
pub open spec fn branch_label(upper: Seq<char>, width: nat) -> Seq<char> {
    seq![' '] + if width <= NARROW_WIDTH {
        first_chars(upper, 2)
    } else {
        upper
    }
}

/// The git branch fragment: empty unless the git plugin is loaded and the
/// branch name is not empty, else the label of the upper-cased name.
pub open spec fn git_branch_text(loaded: bool, branch: Seq<char>, width: nat) -> Seq<char> {
    if loaded && branch.len() > 0 {
        branch_label(upper_of(branch), width)
    } else {
        Seq::empty()
    }
}

/// The label for a branch name that is already upper-cased, in a window of
/// width `width`.
pub fn branch_label_from_upper(upper: &str, width: u32) -> (r: String)
    ensures
        r@ == branch_label(upper@, width as nat),
{
    let mut r = String::from_str(" ");
    proof {
        reveal_strlit(" ");
    }
    let len = upper.unicode_len();
    if width <= NARROW_WIDTH && len > 2 {
        r.append(upper.substring_char(0, 2));
    } else {
        r.append(upper);
    }
    assert(r@ =~= branch_label(upper@, width as nat));
    r
}

/// The git branch fragment of the status line, from whether the git plugin
/// is loaded, the branch it reports and the window's width.
pub fn git_branch(loaded_fugitive: bool, branch: &str, width: u32) -> (r: String)
    ensures
        r@ == git_branch_text(loaded_fugitive, branch@, width as nat),
{
    if loaded_fugitive && !branch.is_empty() {
        let upper = uppercase(branch);
        branch_label_from_upper(upper.as_str(), width)
    } else {
        String::new()
    }
}

/// The word counts the editor reports: the words in the visual selection
/// when there is one, and the words of the buffer.
#[derive(Clone, Copy, Debug, PartialEq, Eq)]
pub struct WordCount {
    pub visual_words: Option<i64>,
    pub words: i64,
}

/// The count shown: the selection's when there is one, else the buffer's.
pub open spec fn shown_count(c: WordCount) -> int {
    match c.visual_words {
        Some(v) => v as int,
        None => c.words as int,
    }
}

/// The word count fragment: the count shown, in decimal, in brackets.
pub open spec fn word_count_text(c: WordCount) -> Seq<char> {
    seq!['['] + signed_decimal(shown_count(c)) + seq![']']
}

/// The word count fragment of the status line.
pub fn word_count(counts: &WordCount) -> (r: String)
    ensures
        r@ == word_count_text(*counts),
{
    let shown: i64 = match counts.visual_words {
        Some(v) => v,
        None => counts.words,
    };
    let mut r = String::from_str("[");
    proof {
        reveal_strlit("[");
        reveal_strlit("]");
    }
    push_signed_decimal(&mut r, shown);
    r.append("]");
    assert(r@ =~= word_count_text(*counts));
    r
}

} // verus!
