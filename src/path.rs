//! Shortened display paths: each component cut to a character budget, a
//! leading `.` or `~` kept on top of that budget.
use vstd::prelude::*;

verus! {

/// The components of a path, as `std::path::Path::components` splits it,
/// each as text: a root is `/`, the current directory `.`, a parent `..`.
pub uninterp spec fn components_of(path: Seq<char>) -> Seq<Seq<char>>;

/// Relies on `std::path::Path::components`: the split of a path into its
/// components. A path given as `&str` holds only valid text, so each
/// component converts to a `String` without loss.
#[verifier::external_body]
pub(crate) fn path_components(path: &str) -> (r: Vec<String>)
    ensures
        r.deep_view() == components_of(path@),
{
    let mut out = Vec::new();
    for c in std::path::Path::new(path).components() {
        out.push(c.as_os_str().to_string_lossy().into_owned());
    }
    out
}

/// The budget actually applied: a budget of 0 keeps one character.
pub open spec fn effective_budget(n: nat) -> nat {
    if n == 0 {
        1
    } else {
        n
    }
}

/// A component that begins with `.` (a hidden entry) or `~` (home).
pub open spec fn is_marked(c: Seq<char>) -> bool {
    c.len() > 0 && (c[0] == '.' || c[0] == '~')
}

/// One component cut to the budget: unchanged when it fits, else its first
/// `n` characters, or `n + 1` when it begins with a marker.
pub open spec fn shorten_component(c: Seq<char>, n: nat) -> Seq<char> {
    let m = effective_budget(n);
    if c.len() <= m {
        c
    } else if is_marked(c) {
        c.take(m + 1 as int)
    } else {
        c.take(m as int)
    }
}

/// Every component of `parts` cut to the budget, in order.
pub open spec fn shorten_parts(parts: Seq<Seq<char>>, n: nat) -> Seq<Seq<char>> {
    parts.map_values(|c: Seq<char>| shorten_component(c, n))
}

/// The pieces joined with one `/` between neighbours and none at the end.
pub open spec fn join_slash(parts: Seq<Seq<char>>) -> Seq<char>
    decreases parts.len(),
{
    if parts.len() == 0 {
        Seq::empty()
    } else if parts.len() == 1 {
        parts[0]
    } else {
        join_slash(parts.drop_last()) + seq!['/'] + parts.last()
    }
}

/// The shortened text of a path given by its components.
pub open spec fn shortened(parts: Seq<Seq<char>>, n: nat) -> Seq<char> {
    join_slash(shorten_parts(parts, n))
}

/// One component cut to the budget `m`, which is at least one.
fn shorten_one(c: &str, m: usize) -> (r: &str)
    requires
        m >= 1,
    ensures
        r@ == shorten_component(c@, m as nat),
{
    let len = c.unicode_len();
    if len <= m {
        c
    } else {
        let first = c.get_char(0);
        if first == '.' || first == '~' {
            c.substring_char(0, m + 1)
        } else {
            c.substring_char(0, m)
        }
    }
}

pub(crate) proof fn lemma_join_push(parts: Seq<Seq<char>>, x: Seq<char>)
    ensures
        join_slash(parts.push(x)) == if parts.len() == 0 {
            x
        } else {
            join_slash(parts) + seq!['/'] + x
        },
{
    assert(parts.push(x).drop_last() =~= parts);
}

/// Joins the components with `/`, each cut to `max_component_len`
/// characters (a budget of 0 counts as 1); a component that begins with `.`
/// or `~` keeps one character more, so that its marker stays.
pub fn shorten_components(components: &Vec<String>, max_component_len: usize) -> (r: String)
    ensures
        r@ == shortened(components.deep_view(), max_component_len as nat),
{
    let m: usize = if max_component_len == 0 {
        1
    } else {
        max_component_len
    };
    let ghost parts = components.deep_view();
    let ghost n = max_component_len as nat;
    let slash = "/";
    proof {
        reveal_strlit("/");
    }
    let mut out = String::new();
    let mut i: usize = 0;
    while i < components.len()
        invariant
            i <= components.len(),
            parts == components.deep_view(),
            m as nat == effective_budget(n),
            slash@ == seq!['/'],
            out@ == join_slash(shorten_parts(parts.take(i as int), n)),
        decreases components.len() - i,
    {
        let piece = shorten_one(components[i].as_str(), m);
        proof {
            assert(shorten_parts(parts.take(i + 1), n) =~= shorten_parts(parts.take(i as int), n).push(
                shorten_component(parts[i as int], n),
            ));
            lemma_join_push(shorten_parts(parts.take(i as int), n), shorten_component(parts[i as int], n));
        }
        if i > 0 {
            out.append(slash);
        }
        out.append(piece);
        i = i + 1;
    }
    assert(parts.take(components.len() as int) =~= parts);
    out
}

proof fn lemma_component_idempotent(c: Seq<char>, n: nat)
    ensures
        shorten_component(shorten_component(c, n), n) == shorten_component(c, n),
{
    let m = effective_budget(n);
    if c.len() > m {
        if is_marked(c) {
            let t = c.take(m + 1 as int);
            assert(t[0] == c[0]);
            assert(t.take(m + 1 as int) =~= t);
        } else {
            let t = c.take(m as int);
            assert(t.take(m as int) =~= t);
        }
    }
}

/// Shortening twice gives what shortening once gives: a cut component fits
/// the budget, or is a marked component of exactly one character more,
/// which a second pass keeps as it is.
pub proof fn lemma_shorten_idempotent(parts: Seq<Seq<char>>, n: nat)
    ensures
        shorten_parts(shorten_parts(parts, n), n) == shorten_parts(parts, n),
        shortened(shorten_parts(parts, n), n) == shortened(parts, n),
{
    assert forall|i: int| 0 <= i < parts.len() implies shorten_component(
        #[trigger] shorten_component(parts[i], n),
        n,
    ) == shorten_component(parts[i], n) by {
        lemma_component_idempotent(parts[i], n);
    }
    assert(shorten_parts(shorten_parts(parts, n), n) =~= shorten_parts(parts, n));
}

/// When every component already fits the budget, the path comes back as
/// it was: the components joined unchanged.
pub proof fn lemma_shorten_within_budget(parts: Seq<Seq<char>>, n: nat)
    requires
        forall|i: int| 0 <= i < parts.len() ==> #[trigger] parts[i].len() <= n,
    ensures
        shorten_parts(parts, n) == parts,
        shortened(parts, n) == join_slash(parts),
{
    assert(shorten_parts(parts, n) =~= parts);
}

/// A component longer than the budget that has no leading marker is cut to
/// exactly the budget.
pub proof fn lemma_plain_component_cut(parts: Seq<Seq<char>>, n: nat, i: int)
    requires
        n >= 1,
        0 <= i < parts.len(),
        parts[i].len() > n,
        !is_marked(parts[i]),
    ensures
        shorten_parts(parts, n)[i].len() == n,
        shorten_parts(parts, n)[i] == parts[i].take(n as int),
{
}

/// A component longer than the budget that begins with `.` or `~` is cut to
/// exactly one character more than the budget and keeps its marker.
pub proof fn lemma_marked_component_cut(parts: Seq<Seq<char>>, n: nat, i: int)
    requires
        n >= 1,
        0 <= i < parts.len(),
        parts[i].len() > n,
        is_marked(parts[i]),
    ensures
        shorten_parts(parts, n)[i].len() == n + 1,
        shorten_parts(parts, n)[i][0] == parts[i][0],
        shorten_parts(parts, n)[i] == parts[i].take(n + 1 as int),
{
}

/// A budget of 0 shortens exactly as a budget of 1 does.
pub proof fn lemma_zero_budget_is_one(parts: Seq<Seq<char>>)
    ensures
        shorten_parts(parts, 0) == shorten_parts(parts, 1),
        shortened(parts, 0) == shortened(parts, 1),
{
    assert(shorten_parts(parts, 0) =~= shorten_parts(parts, 1));
}

/// Shortens a path for display: its components (as `std::path` splits
/// them) cut to `max_component_len` characters each and joined with `/`.
pub fn path_shorten(file_dir: &str, max_component_len: usize) -> (r: String)
    ensures
        r@ == shortened(components_of(file_dir@), max_component_len as nat),
{
    let components = path_components(file_dir);
    shorten_components(&components, max_component_len)
}

} // verus!
