//! Order of texts and of numbers, and insertion into a sorted list without
//! repetitions (what `sort` followed by `dedup` leaves).

use vstd::prelude::*;
use crate::cadena::{copiar, vistas};
use crate::aplicaciones::esta_en;

verus! {

/// The order of `String`: lexicographic on the characters' code points, which
/// is the order of their UTF-8 bytes.
pub open spec fn menor_texto(a: Seq<char>, b: Seq<char>) -> bool
    decreases a.len(),
{
    if a.len() == 0 {
        b.len() > 0
    } else if b.len() == 0 {
        false
    } else if a[0] != b[0] {
        a[0] < b[0]
    } else {
        menor_texto(a.drop_first(), b.drop_first())
    }
}

pub proof fn lema_menor_irreflexivo(a: Seq<char>)
    ensures
        !menor_texto(a, a),
    decreases a.len(),
{
    if a.len() > 0 {
        lema_menor_irreflexivo(a.drop_first());
    }
}

pub proof fn lema_menor_total(a: Seq<char>, b: Seq<char>)
    ensures
        menor_texto(a, b) || menor_texto(b, a) || a == b,
        !(menor_texto(a, b) && menor_texto(b, a)),
    decreases a.len(),
{
    if a.len() > 0 && b.len() > 0 && a[0] == b[0] {
        lema_menor_total(a.drop_first(), b.drop_first());
        if a.drop_first() == b.drop_first() {
            assert(a =~= seq![a[0]] + a.drop_first());
            assert(b =~= seq![b[0]] + b.drop_first());
        }
    } else if a.len() == 0 && b.len() == 0 {
        assert(a =~= b);
    }
}

pub proof fn lema_menor_transitivo(a: Seq<char>, b: Seq<char>, c: Seq<char>)
    requires
        menor_texto(a, b),
        menor_texto(b, c),
    ensures
        menor_texto(a, c),
    decreases a.len(),
{
    if a.len() > 0 && b.len() > 0 && c.len() > 0 && a[0] == b[0] && b[0] == c[0] {
        lema_menor_transitivo(a.drop_first(), b.drop_first(), c.drop_first());
    }
}

/// Strictly increasing, hence without repetitions.
pub open spec fn ordenados_sin_repetir(v: Seq<Seq<char>>) -> bool {
    forall|i: int, j: int| 0 <= i < j < v.len() ==> menor_texto(#[trigger] v[i], #[trigger] v[j])
}

/// Whether `a` comes before `b`.
pub fn es_menor(a: &str, b: &str) -> (r: bool)
    ensures
        r == menor_texto(a@, b@),
{
    let n = a.unicode_len();
    let m = b.unicode_len();
    let mut i: usize = 0;
    assert(a@.subrange(0, n as int) =~= a@);
    assert(b@.subrange(0, m as int) =~= b@);
    while i < n && i < m
        invariant
            n == a@.len(),
            m == b@.len(),
            i <= n,
            i <= m,
            menor_texto(a@, b@) == menor_texto(a@.subrange(i as int, n as int), b@.subrange(i as int, m as int)),
        decreases n - i,
    {
        let x = a.get_char(i);
        let y = b.get_char(i);
        let ghost ra = a@.subrange(i as int, n as int);
        let ghost rb = b@.subrange(i as int, m as int);
        assert(ra[0] == x && rb[0] == y);
        if x != y {
            return x < y;
        }
        assert(ra.drop_first() =~= a@.subrange(i + 1, n as int));
        assert(rb.drop_first() =~= b@.subrange(i + 1, m as int));
        i = i + 1;
    }
    i < m
}

/// Inserts a text into a strictly increasing list unless it is already there.
pub fn insertar_ordenado(v: &mut Vec<String>, x: &str)
    requires
        ordenados_sin_repetir(vistas(old(v)@)),
    ensures
        ordenados_sin_repetir(vistas(final(v)@)),
        forall|y: Seq<char>| #![trigger esta_en(vistas(final(v)@), y)] esta_en(vistas(final(v)@), y) <==> (esta_en(vistas(old(v)@), y) || y == x@),
{
    let ghost w = vistas(v@);
    let mut p: usize = 0;
    while p < v.len() && es_menor(v[p].as_str(), x)
        invariant
            p <= v@.len(),
            w == vistas(v@),
            forall|j: int| 0 <= j < p ==> menor_texto(#[trigger] w[j], x@),
        decreases v.len() - p,
    {
        p = p + 1;
    }
    if p < v.len() && es_menor(x, v[p].as_str()) == false {
        // Here `v[p]` is not before `x` and `x` is not before `v[p]`: equal.
        proof {
            lema_menor_total(w[p as int], x@);
        }
        assert forall|y: Seq<char>| esta_en(vistas(v@), y) <==> (esta_en(w, y) || y == x@) by {
            if y == x@ {
                assert(w[p as int] == y);
            }
        }
        return;
    }
    proof {
        assert forall|j: int| p <= j < w.len() implies menor_texto(x@, #[trigger] w[j]) by {
            if j == p {
            } else {
                assert(menor_texto(w[p as int], w[j]));
                lema_menor_transitivo(x@, w[p as int], w[j]);
            }
        }
    }
    v.insert(p, copiar(x));
    let ghost nv = vistas(v@);
    assert(nv =~= w.subrange(0, p as int).push(x@) + w.subrange(p as int, w.len() as int));
    assert forall|i: int, j: int| 0 <= i < j < nv.len() implies menor_texto(#[trigger] nv[i], #[trigger] nv[j]) by {
        if j < p {
            assert(nv[i] == w[i] && nv[j] == w[j]);
        } else if j == p {
            assert(nv[i] == w[i]);
        } else if i < p {
            assert(nv[i] == w[i] && nv[j] == w[j - 1]);
            lema_menor_transitivo(w[i], x@, w[j - 1]);
        } else if i == p {
            assert(nv[j] == w[j - 1]);
        } else {
            assert(nv[i] == w[i - 1] && nv[j] == w[j - 1]);
        }
    }
    assert forall|y: Seq<char>| esta_en(nv, y) <==> (esta_en(w, y) || y == x@) by {
        if esta_en(nv, y) {
            let i = choose|i: int| 0 <= i < nv.len() && nv[i] == y;
            if i < p {
                assert(w[i] == y);
            } else if i > p {
                assert(w[i - 1] == y);
            }
        }
        if esta_en(w, y) {
            let i = choose|i: int| 0 <= i < w.len() && w[i] == y;
            if i < p {
                assert(nv[i] == y);
            } else {
                assert(nv[i + 1] == y);
            }
        }
        if y == x@ {
            assert(nv[p as int] == y);
        }
    }
}

} // verus!
