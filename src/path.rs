//! Working directories as sequences of path components, and how `cd`
//! arguments move between them.
use vstd::prelude::*;
use crate::text::{push_chars, string_of};

verus! {

/// The pieces of `s` between `/` characters: `n` slashes give `n + 1` pieces,
/// some of them possibly empty.
pub open spec fn pieces(s: Seq<char>) -> Seq<Seq<char>>
    decreases s.len(),
{
    if s.len() == 0 {
        seq![Seq::empty()]
    } else {
        let f = pieces(s.drop_last());
        if s.last() == '/' {
            f.push(Seq::empty())
        } else {
            f.update(f.len() - 1, f.last().push(s.last()))
        }
    }
}

/// The directory reached from `cur` through the piece `p`: an empty piece and
/// `.` stay, `..` goes to the parent (the root is its own parent), and any
/// other piece enters the directory of that name.
pub open spec fn enter(cur: Seq<Seq<char>>, p: Seq<char>) -> Seq<Seq<char>> {
    if p.len() == 0 || p == seq!['.'] {
        cur
    } else if p == seq!['.', '.'] {
        if cur.len() > 0 {
            cur.drop_last()
        } else {
            cur
        }
    } else {
        cur.push(p)
    }
}

/// The directory reached from `cur` through each of `ps` in turn.
pub open spec fn enter_all(cur: Seq<Seq<char>>, ps: Seq<Seq<char>>) -> Seq<Seq<char>>
    decreases ps.len(),
{
    if ps.len() == 0 {
        cur
    } else {
        enter(enter_all(cur, ps.drop_last()), ps.last())
    }
}

/// The directory that `dir` names, seen from `cwd`: from the root when `dir`
/// starts with `/`, else from `cwd`.
pub open spec fn resolve(cwd: Seq<Seq<char>>, dir: Seq<char>) -> Seq<Seq<char>> {
    let start = if dir.len() > 0 && dir[0] == '/' {
        Seq::empty()
    } else {
        cwd
    };
    enter_all(start, pieces(dir))
}

/// Each component preceded by `/`.
pub open spec fn joined(cs: Seq<Seq<char>>) -> Seq<char>
    decreases cs.len(),
{
    if cs.len() == 0 {
        Seq::empty()
    } else {
        joined(cs.drop_last()) + seq!['/'] + cs.last()
    }
}

/// The absolute path of the directory with components `cs`.
pub open spec fn render(cs: Seq<Seq<char>>) -> Seq<char> {
    if cs.len() == 0 {
        seq!['/']
    } else {
        joined(cs)
    }
}

proof fn lemma_pieces_len(s: Seq<char>)
    ensures
        pieces(s).len() >= 1,
    decreases s.len(),
{
    if s.len() > 0 {
        lemma_pieces_len(s.drop_last());
    }
}

/// Moves `cur` through the piece `p`.
fn enter_piece(cur: &mut Vec<String>, p: Vec<char>)
    ensures
        final(cur).deep_view() == enter(old(cur).deep_view(), p@),
{
    let ghost before = cur.deep_view();
    let n = p.len();
    if n == 0 || (n == 1 && p[0] == '.') {
        assert(n == 1 ==> p@ =~= seq!['.']);
    } else if n == 2 && p[0] == '.' && p[1] == '.' {
        assert(p@ =~= seq!['.', '.']);
        if cur.len() > 0 {
            cur.pop();
            assert(cur.deep_view() =~= before.drop_last());
        }
    } else {
        assert(p@ != seq!['.']) by {
            if n == 1 {
                assert(p@[0] != seq!['.'][0]);
            }
        }
        assert(p@ != seq!['.', '.']) by {
            if n == 2 {
                assert(p@[0] != '.' || p@[1] != '.');
            }
        }
        cur.push(string_of(p));
        assert(cur.deep_view() =~= before.push(p@));
    }
}

/// The components of the directory that `dir` names, seen from the directory
/// with components `cwd`.
pub fn resolve_dir(cwd: &Vec<String>, dir: &str) -> (r: Vec<String>)
    ensures
        r.deep_view() == resolve(cwd.deep_view(), dir@),
{
    let absolute = dir.unicode_len() > 0 && dir.get_char(0) == '/';
    let mut cur: Vec<String> = Vec::new();
    if !absolute {
        let mut i: usize = 0;
        while i < cwd.len()
            invariant
                i <= cwd.len(),
                cur.deep_view() =~= cwd.deep_view().take(i as int),
            decreases cwd.len() - i,
        {
            let ghost before = cur.deep_view();
            cur.push(cwd[i].clone());
            assert(cur.deep_view() =~= before.push(cwd.deep_view()[i as int]));
            i = i + 1;
        }
    }
    let ghost start = cur.deep_view();
    assert(start =~= (if dir@.len() > 0 && dir@[0] == '/' {
        Seq::empty()
    } else {
        cwd.deep_view()
    }));
    let mut piece: Vec<char> = Vec::new();
    assert(dir@.take(0) =~= Seq::<char>::empty());
    assert(pieces(dir@.take(0)).drop_last() =~= Seq::<Seq<char>>::empty());
    for c in it: dir.chars()
        invariant
            it.seq() == dir@,
            cur.deep_view() == enter_all(start, pieces(dir@.take(it.index())).drop_last()),
            piece@ == pieces(dir@.take(it.index())).last(),
    {
        let ghost s = dir@.take(it.index());
        assert(dir@.take(it.index() + 1).drop_last() =~= s);
        proof {
            lemma_pieces_len(s);
        }
        if c == '/' {
            let ghost f = pieces(s);
            assert(f.drop_last().push(f.last()) =~= f);
            enter_piece(&mut cur, piece);
            piece = Vec::new();
            assert(f.push(Seq::empty()).drop_last() =~= f);
        } else {
            let ghost f = pieces(s);
            assert(f.update(f.len() - 1, f.last().push(c)).drop_last() =~= f.drop_last());
            piece.push(c);
        }
    }
    assert(dir@.take(dir@.len() as int) =~= dir@);
    proof {
        lemma_pieces_len(dir@);
        let f = pieces(dir@);
        assert(f.drop_last().push(f.last()) =~= f);
    }
    enter_piece(&mut cur, piece);
    cur
}

/// The absolute path of the directory with components `cs`.
pub fn render_path(cs: &Vec<String>) -> (r: String)
    ensures
        r@ == render(cs.deep_view()),
{
    let mut out: Vec<char> = Vec::new();
    if cs.len() == 0 {
        out.push('/');
        assert(out@ =~= seq!['/']);
        return string_of(out);
    }
    let mut i: usize = 0;
    while i < cs.len()
        invariant
            i <= cs.len(),
            out@ == joined(cs.deep_view().take(i as int)),
        decreases cs.len() - i,
    {
        assert(cs.deep_view().take(i + 1).drop_last() =~= cs.deep_view().take(i as int));
        out.push('/');
        push_chars(&mut out, cs[i].as_str());
        i = i + 1;
    }
    assert(cs.deep_view().take(cs.len() as int) =~= cs.deep_view());
    string_of(out)
}

} // verus!
