use vstd::prelude::*;

use crate::resolver::spec_join;
use crate::resolver::join_path;
use crate::text::append_suffix;
use crate::text::clone_chars;
use crate::text::starts_with_chars;

verus! {

/// One entry of a directory listing, as the filesystem collaborator hands
/// it over: the entry's name and whether it names a directory.
pub struct DirEntry {
    pub name: Vec<char>,
    pub is_directory: bool,
}

/// The mathematical content of one directory entry.
pub open spec fn entry_model(e: DirEntry) -> (Seq<char>, bool) {
    (e.name@, e.is_directory)
}

/// The mathematical content of a directory listing, in order.
pub open spec fn entries_model(s: Seq<DirEntry>) -> Seq<(Seq<char>, bool)> {
    s.map_values(|e: DirEntry| entry_model(e))
}

/// The entries among the first `i` whose name begins with `hint`, in order.
/// An empty hint keeps every entry.
pub open spec fn selected(model: Seq<(Seq<char>, bool)>, hint: Seq<char>, i: int) -> Seq<
    (Seq<char>, bool),
>
    decreases i,
{
    if i <= 0 {
        Seq::<(Seq<char>, bool)>::empty()
    } else {
        let prev = selected(model, hint, i - 1);
        if hint.is_prefix_of(model[i - 1].0) {
            prev.push(model[i - 1])
        } else {
            prev
        }
    }
}

/// The candidate entries of a listing for `hint`: those whose name begins
/// with it, in listing order.
pub open spec fn matches_of(model: Seq<(Seq<char>, bool)>, hint: Seq<char>) -> Seq<
    (Seq<char>, bool),
> {
    selected(model, hint, model.len() as int)
}

/// How one completion attempt ends: no candidate, exactly one, or several.
pub enum CompletionOutcome {
    NoMatch,
    SingleMatch { name: Vec<char>, is_directory: bool },
    AmbiguousMatches { names: Vec<Vec<char>> },
}

/// Filters a directory listing by the partially typed name `hint` and
/// applies the disambiguation policy: zero candidates is no match, one
/// candidate is taken, several are reported back for display, in order.
pub fn match_entries(entries: &Vec<DirEntry>, hint: &Vec<char>) -> (r: CompletionOutcome)
    ensures
        matches_of(entries_model(entries@), hint@).len() == 0 ==> r is NoMatch,
        matches_of(entries_model(entries@), hint@).len() == 1 ==> (r matches
            CompletionOutcome::SingleMatch { name, is_directory } && name@ == matches_of(
            entries_model(entries@),
            hint@,
        )[0].0 && is_directory == matches_of(entries_model(entries@), hint@)[0].1),
        matches_of(entries_model(entries@), hint@).len() > 1 ==> (r matches
            CompletionOutcome::AmbiguousMatches { names } && names.deep_view() == matches_of(
            entries_model(entries@),
            hint@,
        ).map_values(|m: (Seq<char>, bool)| m.0)),
{
    let ghost model = entries_model(entries@);
    let mut names: Vec<Vec<char>> = Vec::new();
    let mut dirs: Vec<bool> = Vec::new();
    let mut i: usize = 0;
    while i < entries.len()
        invariant
            model == entries_model(entries@),
            i <= entries@.len(),
            names@.len() == selected(model, hint@, i as int).len(),
            dirs@.len() == names@.len(),
            forall|k: int|
                0 <= k < names@.len() ==> names@[k]@ == #[trigger] selected(
                    model,
                    hint@,
                    i as int,
                )[k].0,
            forall|k: int|
                0 <= k < dirs@.len() ==> dirs@[k] == selected(model, hint@, i as int)[k].1,
        decreases entries@.len() - i,
    {
        if starts_with_chars(&entries[i].name, hint) {
            names.push(clone_chars(&entries[i].name));
            dirs.push(entries[i].is_directory);
        }
        i = i + 1;
    }
    let ghost m = matches_of(model, hint@);
    if names.len() == 0 {
        CompletionOutcome::NoMatch
    } else if names.len() == 1 {
        let name = clone_chars(&names[0]);
        let is_directory = dirs[0];
        CompletionOutcome::SingleMatch { name, is_directory }
    } else {
        proof {
            let mapped = m.map_values(|p: (Seq<char>, bool)| p.0);
            assert forall|k: int| 0 <= k < names@.len() implies names.deep_view()[k]
                == mapped[k] by {
                crate::resolver::lemma_deep_index(names, k);
            }
            assert(names.deep_view() =~= mapped);
        }
        CompletionOutcome::AmbiguousMatches { names }
    }
}

/// A leading `~` stands for the home directory; expanding replaces it with
/// the home path, and any other argument passes through unchanged.
pub open spec fn spec_expand_home(arg: Seq<char>, home: Seq<char>) -> Seq<char> {
    if arg.len() > 0 && arg[0] == '~' {
        home + arg.skip(1)
    } else {
        arg
    }
}

/// Replaces a leading `~` with the home directory path.
pub fn expand_home(arg: &Vec<char>, home: &Vec<char>) -> (r: Vec<char>)
    ensures
        r@ == spec_expand_home(arg@, home@),
{
    if arg.len() > 0 && arg[0] == '~' {
        let mut out = clone_chars(home);
        append_suffix(&mut out, arg, 1);
        out
    } else {
        clone_chars(arg)
    }
}

/// Every backslash separator turned into a forward slash.
pub open spec fn normalize_seps(s: Seq<char>) -> Seq<char> {
    s.map_values(
        |c: char|
            if c == '\\' {
                '/'
            } else {
                c
            },
    )
}

/// Rewrites a path with forward slashes only, per `normalize_seps`.
pub fn normalize_separators(p: &Vec<char>) -> (r: Vec<char>)
    ensures
        r@ == normalize_seps(p@),
{
    let mut out: Vec<char> = Vec::new();
    let mut i: usize = 0;
    while i < p.len()
        invariant
            i <= p@.len(),
            out@ == normalize_seps(p@).take(i as int),
        decreases p@.len() - i,
    {
        let c = p[i];
        if c == '\\' {
            out.push('/');
        } else {
            out.push(c);
        }
        i = i + 1;
        proof {
            assert(out@ =~= normalize_seps(p@).take(i as int));
        }
    }
    proof {
        assert(normalize_seps(p@).take(p@.len() as int) =~= normalize_seps(p@));
    }
    out
}

/// The user-facing form of a completed path: separators normalized to `/`,
/// and the home directory prefix folded back into `~`.
pub open spec fn spec_collapse_home(p: Seq<char>, home: Seq<char>) -> Seq<char> {
    let n = normalize_seps(p);
    let h = normalize_seps(home);
    if h.len() > 0 && h.is_prefix_of(n) {
        seq!['~'] + n.skip(h.len() as int)
    } else {
        n
    }
}

/// Normalizes separators and folds the home directory prefix back into `~`,
/// per `spec_collapse_home`.
pub fn collapse_home(p: &Vec<char>, home: &Vec<char>) -> (r: Vec<char>)
    ensures
        r@ == spec_collapse_home(p@, home@),
{
    let n = normalize_separators(p);
    let h = normalize_separators(home);
    if h.len() > 0 && starts_with_chars(&n, &h) {
        let mut out: Vec<char> = Vec::new();
        out.push('~');
        proof {
            assert(out@ =~= seq!['~']);
        }
        append_suffix(&mut out, &n, h.len());
        out
    } else {
        n
    }
}

/// Expanding a home-alias argument and folding the result back to its
/// user-facing form round-trips: the alias is restored and only the
/// separators of the remainder are normalized.
pub proof fn lemma_expand_collapse_round_trip(arg: Seq<char>, home: Seq<char>)
    requires
        home.len() > 0,
        arg.len() > 0,
        arg[0] == '~',
    ensures
        spec_collapse_home(spec_expand_home(arg, home), home) == seq!['~'] + normalize_seps(
            arg.skip(1),
        ),
{
    let h = normalize_seps(home);
    let rest = normalize_seps(arg.skip(1));
    assert(normalize_seps(home + arg.skip(1)) =~= h + rest);
    assert((h + rest).take(h.len() as int) =~= h);
    assert(h.is_prefix_of(h + rest));
    assert((h + rest).skip(h.len() as int) =~= rest);
}

/// A directory candidate gains a trailing separator unless it already ends
/// in one; a file candidate stays as it is.
pub open spec fn spec_dir_slash(p: Seq<char>, is_directory: bool) -> Seq<char> {
    if is_directory && !(p.len() > 0 && p.last() == '/') {
        p + seq!['/']
    } else {
        p
    }
}

/// The argument text a single completion candidate turns into: the candidate
/// spliced onto the validated path, a trailing separator added when it names
/// a directory, and the whole brought back to user-facing form.
pub fn completed_argument(
    validated: &Vec<char>,
    name: &Vec<char>,
    is_directory: bool,
    home: &Vec<char>,
) -> (r: Vec<char>)
    ensures
        r@ == spec_collapse_home(
            spec_dir_slash(spec_join(validated@, name@), is_directory),
            home@,
        ),
{
    let mut joined = join_path(validated, name);
    if is_directory && !(joined.len() > 0 && joined[joined.len() - 1] == '/') {
        joined.push('/');
        proof {
            assert(joined@ =~= spec_dir_slash(spec_join(validated@, name@), is_directory));
        }
    }
    collapse_home(&joined, home)
}

/// The full command line rebuilt after completion: the untouched text before
/// the argument, one space, then the completed argument.
pub fn rebuild_line(fixed_prefix: &Vec<char>, argument: &Vec<char>) -> (r: Vec<char>)
    ensures
        r@ == fixed_prefix@ + seq![' '] + argument@,
{
    let mut out = clone_chars(fixed_prefix);
    out.push(' ');
    proof {
        assert(out@ =~= fixed_prefix@ + seq![' ']);
    }
    crate::text::append_chars(&mut out, argument);
    out
}

} // verus!
