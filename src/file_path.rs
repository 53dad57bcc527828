//! The file path fragment of the status line: the directory of the current
//! buffer with the home directory written `~`, shortened on narrow windows,
//! followed by the file name.
use vstd::prelude::*;
use crate::NARROW_WIDTH;
use crate::path::{
    components_of, join_slash, lemma_join_push, path_components, shorten_components, shortened,
};

verus! {

/// The text of a root component.
pub open spec fn root_part() -> Seq<char> {
    seq!['/']
}

/// The first component of a terminal buffer's name (`term://...`).
pub open spec fn terminal_part() -> Seq<char> {
    seq!['t', 'e', 'r', 'm', ':']
}

/// What a buffer without a name shows.
pub open spec fn no_name_text() -> Seq<char> {
    seq!['[', 'N', 'o', ' ', 'N', 'a', 'm', 'e', ']']
}

/// What a terminal opened in the home directory shows.
pub open spec fn home_text() -> Seq<char> {
    seq!['$', 'H', 'O', 'M', 'E', ' ']
}

/// A buffer whose name is a terminal's.
pub open spec fn is_terminal(buf: Seq<Seq<char>>) -> bool {
    buf.len() > 0 && buf[0] == terminal_part()
}

/// A name whose last component is a file name, not a root, `.` or `..`.
pub open spec fn has_file_name(buf: Seq<Seq<char>>) -> bool {
    buf.len() > 0 && buf.last() != root_part() && buf.last() != seq!['.'] && buf.last() != seq![
        '.',
        '.',
    ]
}

/// A directory inside `home` written relative to `~`; any other directory
/// as it is. A rest that is itself rooted (an empty home) replaces `~`, as
/// joining a rooted path does.
pub open spec fn under_home(dir: Seq<Seq<char>>, home: Seq<Seq<char>>) -> Seq<Seq<char>> {
    if home.len() <= dir.len() && dir.take(home.len() as int) == home {
        let rest = dir.skip(home.len() as int);
        if rest.len() > 0 && rest[0] == root_part() {
            rest
        } else {
            seq![seq!['~']] + rest
        }
    } else {
        dir
    }
}

/// The display text of a path given by its components.
pub open spec fn display_text(dir: Seq<Seq<char>>) -> Seq<char> {
    if dir.len() > 0 && dir[0] == root_part() {
        root_part() + join_slash(dir.drop_first())
    } else {
        join_slash(dir)
    }
}

/// The directory as shown in a window of the given width.
pub open spec fn dir_text(dir: Seq<Seq<char>>, width: nat) -> Seq<char> {
    if width <= NARROW_WIDTH {
        shortened(dir, 1)
    } else {
        display_text(dir)
    }
}

/// A file name appended to a directory's text, with a `/` between them
/// unless the text is empty or already ends in one.
pub open spec fn join_name(dir: Seq<char>, name: Seq<char>) -> Seq<char> {
    if dir.len() == 0 {
        name
    } else if dir.last() == '/' {
        dir + name
    } else {
        dir + seq!['/'] + name
    }
}

/// The file path fragment for a buffer name, the home directory and the
/// working directory, all given by their components; `None` when a named,
/// non-terminal buffer has no file name.
pub open spec fn smart_path(
    buf: Seq<Seq<char>>,
    home: Seq<Seq<char>>,
    cwd: Seq<Seq<char>>,
    width: nat,
) -> Option<Seq<char>> {
    if buf.len() == 0 {
        Some(no_name_text())
    } else if is_terminal(buf) {
        if cwd == home {
            Some(home_text())
        } else {
            Some(dir_text(under_home(cwd, home), width) + seq![' '])
        }
    } else if !has_file_name(buf) {
        None
    } else {
        Some(
            join_name(dir_text(under_home(buf.drop_last(), home), width), buf.last()) + seq![' '],
        )
    }
}

/// The text of an optional `String`.
pub open spec fn text_of(r: Option<String>) -> Option<Seq<char>> {
    match r {
        Some(t) => Some(t@),
        None => None,
    }
}

/// Whether two component lists are equal.
fn same_parts(a: &Vec<String>, b: &Vec<String>) -> (r: bool)
    ensures
        r == (a.deep_view() == b.deep_view()),
{
    if a.len() != b.len() {
        assert(a.deep_view().len() != b.deep_view().len());
        return false;
    }
    let mut i: usize = 0;
    while i < a.len()
        invariant
            a.len() == b.len(),
            i <= a.len(),
            forall|j: int| 0 <= j < i ==> a.deep_view()[j] == b.deep_view()[j],
        decreases a.len() - i,
    {
        if a[i] != b[i] {
            assert(a.deep_view()[i as int] != b.deep_view()[i as int]);
            return false;
        }
        i = i + 1;
    }
    assert(a.deep_view() =~= b.deep_view());
    true
}

/// Whether `home` is a prefix of `dir`, component by component.
fn starts_with_parts(dir: &Vec<String>, home: &Vec<String>) -> (r: bool)
    ensures
        r == (home.len() <= dir.len() && dir.deep_view().take(home.len() as int)
            == home.deep_view()),
{
    if home.len() > dir.len() {
        return false;
    }
    let mut i: usize = 0;
    while i < home.len()
        invariant
            home.len() <= dir.len(),
            i <= home.len(),
            forall|j: int| 0 <= j < i ==> dir.deep_view()[j] == home.deep_view()[j],
        decreases home.len() - i,
    {
        if dir[i] != home[i] {
            assert(dir.deep_view().take(home.len() as int)[i as int] != home.deep_view()[i as int]);
            return false;
        }
        i = i + 1;
    }
    assert(dir.deep_view().take(home.len() as int) =~= home.deep_view());
    true
}

/// Appends the components of `parts` from `start` on to `out`.
fn copy_parts(out: &mut Vec<String>, parts: &Vec<String>, start: usize)
    requires
        start <= parts.len(),
    ensures
        final(out).deep_view() == old(out).deep_view() + parts.deep_view().skip(start as int),
{
    let mut i: usize = start;
    while i < parts.len()
        invariant
            start <= i <= parts.len(),
            out.deep_view() == old(out).deep_view() + parts.deep_view().subrange(
                start as int,
                i as int,
            ),
        decreases parts.len() - i,
    {
        let ghost before = out.deep_view();
        out.push(parts[i].clone());
        assert(out.deep_view() =~= before.push(parts.deep_view()[i as int]));
        assert(parts.deep_view().subrange(start as int, i + 1) =~= parts.deep_view().subrange(
            start as int,
            i as int,
        ).push(parts.deep_view()[i as int]));
        i = i + 1;
        assert(out.deep_view() =~= old(out).deep_view() + parts.deep_view().subrange(
            start as int,
            i as int,
        ));
    }
    assert(parts.deep_view().subrange(start as int, parts.len() as int) =~= parts.deep_view().skip(
        start as int,
    ));
}

/// The directory written relative to `~` when it lies in `home`.
fn relative_to_home(dir: &Vec<String>, home: &Vec<String>) -> (r: Vec<String>)
    ensures
        r.deep_view() == under_home(dir.deep_view(), home.deep_view()),
{
    let mut r: Vec<String> = Vec::new();
    if starts_with_parts(dir, home) {
        let n = home.len();
        let rooted = n < dir.len() && dir[n] == String::from_str("/");
        proof {
            reveal_strlit("/");
            reveal_strlit("~");
            assert("/"@ =~= root_part());
            assert("~"@ =~= seq!['~']);
            let rest = dir.deep_view().skip(n as int);
            assert(rooted == (rest.len() > 0 && rest[0] == root_part()));
        }
        if !rooted {
            r.push(String::from_str("~"));
        }
        copy_parts(&mut r, dir, n);
        assert(r.deep_view() =~= under_home(dir.deep_view(), home.deep_view()));
    } else {
        copy_parts(&mut r, dir, 0);
        assert(r.deep_view() =~= under_home(dir.deep_view(), home.deep_view()));
    }
    r
}

/// Joins the components of `parts` from `start` on with `/`.
fn join_from(parts: &Vec<String>, start: usize) -> (r: String)
    requires
        start <= parts.len(),
    ensures
        r@ == join_slash(parts.deep_view().skip(start as int)),
{
    let ghost all = parts.deep_view();
    let slash = "/";
    proof {
        reveal_strlit("/");
    }
    let mut out = String::new();
    let mut i: usize = start;
    while i < parts.len()
        invariant
            start <= i <= parts.len(),
            all == parts.deep_view(),
            slash@ == seq!['/'],
            out@ == join_slash(all.subrange(start as int, i as int)),
        decreases parts.len() - i,
    {
        proof {
            assert(all.subrange(start as int, i + 1) =~= all.subrange(start as int, i as int).push(
                all[i as int],
            ));
            lemma_join_push(all.subrange(start as int, i as int), all[i as int]);
        }
        if i > start {
            out.append(slash);
        }
        out.append(parts[i].as_str());
        i = i + 1;
    }
    assert(all.subrange(start as int, parts.len() as int) =~= all.skip(start as int));
    out
}

/// The display text of a path given by its components.
fn display_parts(dir: &Vec<String>) -> (r: String)
    ensures
        r@ == display_text(dir.deep_view()),
{
    proof {
        reveal_strlit("/");
        assert("/"@ =~= root_part());
    }
    if dir.len() > 0 && dir[0] == String::from_str("/") {
        let mut r = String::from_str("/");
        let rest = join_from(dir, 1);
        r.append(rest.as_str());
        assert(dir.deep_view().skip(1) =~= dir.deep_view().drop_first());
        r
    } else {
        let r = join_from(dir, 0);
        assert(dir.deep_view().skip(0) =~= dir.deep_view());
        r
    }
}

/// The directory's text for a window of the given width.
fn dir_parts_text(dir: &Vec<String>, width: u32) -> (r: String)
    ensures
        r@ == dir_text(dir.deep_view(), width as nat),
{
    if width <= NARROW_WIDTH {
        shorten_components(dir, 1)
    } else {
        display_parts(dir)
    }
}

/// The file path fragment for a buffer name, the home directory and the
/// working directory given by their components, in a window of width
/// `width`. `None` when a named buffer that is not a terminal has no file
/// name (its last component is a root, `.` or `..`).
pub fn smart_path_from_parts(
    buf: &Vec<String>,
    home: &Vec<String>,
    cwd: &Vec<String>,
    width: u32,
) -> (r: Option<String>)
    ensures
        text_of(r) == smart_path(buf.deep_view(), home.deep_view(), cwd.deep_view(), width as nat),
{
    let ghost b = buf.deep_view();
    proof {
        reveal_strlit("[No Name]");
        reveal_strlit("$HOME ");
        reveal_strlit("term:");
        reveal_strlit("/");
        reveal_strlit(".");
        reveal_strlit("..");
        reveal_strlit(" ");
    }
    if buf.len() == 0 {
        let r = String::from_str("[No Name]");
        assert(r@ =~= no_name_text());
        return Some(r);
    }
    let space = " ";
    if buf[0] == String::from_str("term:") {
        assert(is_terminal(b)) by {
            assert(b[0] =~= terminal_part());
        }
        if same_parts(cwd, home) {
            let r = String::from_str("$HOME ");
            assert(r@ =~= home_text());
            return Some(r);
        }
        let dir = relative_to_home(cwd, home);
        let mut r = dir_parts_text(&dir, width);
        r.append(space);
        return Some(r);
    }
    assert(!is_terminal(b)) by {
        if b[0] == terminal_part() {
            assert(b[0] =~= "term:"@);
        }
    }
    let last = buf.len() - 1;
    if buf[last] == String::from_str("/") || buf[last] == String::from_str(".") || buf[last]
        == String::from_str("..") {
        assert(!has_file_name(b)) by {
            assert("/"@ =~= root_part());
            assert("."@ =~= seq!['.']);
            assert(".."@ =~= seq!['.', '.']);
        }
        return None;
    }
    assert(has_file_name(b)) by {
        assert("/"@ =~= root_part());
        assert("."@ =~= seq!['.']);
        assert(".."@ =~= seq!['.', '.']);
    }
    let mut parent: Vec<String> = Vec::new();
    copy_parts(&mut parent, buf, 0);
    parent.pop();
    assert(parent.deep_view() =~= b.drop_last());
    let dir = relative_to_home(&parent, home);
    let mut r = dir_parts_text(&dir, width);
    let name = buf[last].as_str();
    let len = r.unicode_len();
    if len > 0 {
        if r.as_str().get_char(len - 1) != '/' {
            r.append("/");
        }
    }
    r.append(name);
    r.append(space);
    assert(r@ =~= join_name(dir_text(under_home(b.drop_last(), home.deep_view()), width as nat), b.last()) + seq![' ']);
    Some(r)
}

/// The file path fragment of the status line, from the buffer's name, the
/// home directory, the working directory and the window's width; each path
/// is split into components as `std::path` splits it.
pub fn smart_file_path(buf_name: &str, home: &str, cwd: &str, width: u32) -> (r: Option<String>)
    ensures
        text_of(r) == smart_path(
            components_of(buf_name@),
            components_of(home@),
            components_of(cwd@),
            width as nat,
        ),
{
    let buf = path_components(buf_name);
    let home_parts = path_components(home);
    let cwd_parts = path_components(cwd);
    smart_path_from_parts(&buf, &home_parts, &cwd_parts, width)
}

} // verus!
