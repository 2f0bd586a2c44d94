//! Text primitives with their meaning stated over `Seq<char>`.

use vstd::prelude::*;

verus! {

/// `String::push` appends one character at the end of the string.
pub assume_specification[ String::push ](s: &mut String, ch: char)
    ensures
        final(s)@ == old(s)@.push(ch),
;

/// The characters that Unicode lists as `White_Space`, which is what
/// `str::trim` and `char::is_whitespace` remove.
pub open spec fn es_espacio(c: char) -> bool {
    ||| c == '\t'
    ||| c == '\n'
    ||| c == '\x0B'
    ||| c == '\x0C'
    ||| c == '\r'
    ||| c == ' '
    ||| c == '\u{85}'
    ||| c == '\u{A0}'
    ||| c == '\u{1680}'
    ||| ('\u{2000}' <= c && c <= '\u{200A}')
    ||| c == '\u{2028}'
    ||| c == '\u{2029}'
    ||| c == '\u{202F}'
    ||| c == '\u{205F}'
    ||| c == '\u{3000}'
}

pub fn es_espacio_exec(c: char) -> (r: bool)
    ensures
        r == es_espacio(c),
{
    c == '\t' || c == '\n' || c == '\x0B' || c == '\x0C' || c == '\r' || c == ' ' || c
        == '\u{85}' || c == '\u{A0}' || c == '\u{1680}' || ('\u{2000}' <= c && c <= '\u{200A}')
        || c == '\u{2028}' || c == '\u{2029}' || c == '\u{202F}' || c == '\u{205F}' || c
        == '\u{3000}'
}

/// The text without its leading white space.
pub open spec fn sin_espacio_inicial(s: Seq<char>) -> Seq<char>
    decreases s.len(),
{
    if s.len() > 0 && es_espacio(s[0]) {
        sin_espacio_inicial(s.drop_first())
    } else {
        s
    }
}

/// The text without its trailing white space.
pub open spec fn sin_espacio_final(s: Seq<char>) -> Seq<char>
    decreases s.len(),
{
    if s.len() > 0 && es_espacio(s.last()) {
        sin_espacio_final(s.drop_last())
    } else {
        s
    }
}

/// What `str::trim` gives back.
pub open spec fn recortado(s: Seq<char>) -> Seq<char> {
    sin_espacio_final(sin_espacio_inicial(s))
}

pub open spec fn minuscula_ascii(c: char) -> char {
    if 'A' <= c && c <= 'Z' {
        ((c as u32) + 32) as char
    } else {
        c
    }
}

pub open spec fn mayuscula_ascii(c: char) -> char {
    if 'a' <= c && c <= 'z' {
        ((c as u32) - 32) as char
    } else {
        c
    }
}

/// What `str::to_ascii_lowercase` gives back.
pub open spec fn minusculas(s: Seq<char>) -> Seq<char> {
    s.map_values(|c: char| minuscula_ascii(c))
}

/// What `str::to_ascii_uppercase` gives back.
pub open spec fn mayusculas(s: Seq<char>) -> Seq<char> {
    s.map_values(|c: char| mayuscula_ascii(c))
}

pub open spec fn empieza_con(s: Seq<char>, p: Seq<char>) -> bool {
    p.len() <= s.len() && s.subrange(0, p.len() as int) == p
}

pub open spec fn termina_con(s: Seq<char>, p: Seq<char>) -> bool {
    p.len() <= s.len() && s.subrange(s.len() - p.len(), s.len() as int) == p
}

pub open spec fn aparece_en(s: Seq<char>, p: Seq<char>, i: int) -> bool {
    0 <= i && i + p.len() <= s.len() && s.subrange(i, i + p.len()) == p
}

pub open spec fn contiene(s: Seq<char>, p: Seq<char>) -> bool {
    exists|i: int| aparece_en(s, p, i)
}

/// Decimal digits of a natural number, as `Display` writes them.
pub open spec fn decimal(n: nat) -> Seq<char>
    decreases n,
{
    if n < 10 {
        seq![digito(n)]
    } else {
        decimal(n / 10).push(digito(n % 10))
    }
}

pub open spec fn digito(d: nat) -> char {
    (('0' as nat) + d) as char
}

/// Position of the first occurrence of a character.
pub open spec fn primera_posicion(s: Seq<char>, c: char) -> Option<int>
    decreases s.len(),
{
    if s.len() == 0 {
        None
    } else if s[0] == c {
        Some(0)
    } else {
        match primera_posicion(s.drop_first(), c) {
            Some(i) => Some(i + 1),
            None => None,
        }
    }
}

/// Every occurrence of `de` replaced by `a`.
pub open spec fn cambiar_caracter(s: Seq<char>, de: char, a: char) -> Seq<char> {
    s.map_values(|c: char| if c == de { a } else { c })
}

pub proof fn lema_primera_posicion(s: Seq<char>, c: char)
    ensures
        match primera_posicion(s, c) {
            Some(i) => 0 <= i < s.len() && s[i] == c && forall|j: int| 0 <= j < i ==> s[j] != c,
            None => forall|j: int| 0 <= j < s.len() ==> s[j] != c,
        },
    decreases s.len(),
{
    if s.len() > 0 {
        lema_primera_posicion(s.drop_first(), c);
        if s[0] != c {
            match primera_posicion(s.drop_first(), c) {
                Some(i) => {
                    assert forall|j: int| 0 <= j < i + 1 implies s[j] != c by {
                        if j > 0 {
                            assert(s[j] == s.drop_first()[j - 1]);
                        }
                    }
                },
                None => {
                    assert forall|j: int| 0 <= j < s.len() implies s[j] != c by {
                        if j > 0 {
                            assert(s[j] == s.drop_first()[j - 1]);
                        }
                    }
                },
            }
        }
    }
}

/// Equality of two texts, character by character.
pub fn iguales(a: &str, b: &str) -> (r: bool)
    ensures
        r == (a@ == b@),
{
    let n = a.unicode_len();
    let m = b.unicode_len();
    if n != m {
        return false;
    }
    let mut i: usize = 0;
    while i < n
        invariant
            n == a@.len(),
            m == b@.len(),
            n == m,
            i <= n,
            forall|j: int| 0 <= j < i ==> a@[j] == b@[j],
        decreases n - i,
    {
        if a.get_char(i) != b.get_char(i) {
            return false;
        }
        i = i + 1;
    }
    assert(a@ =~= b@);
    true
}

/// Whether `p` occurs in `s` at character position `i`.
pub fn aparece_en_exec(s: &str, p: &str, i: usize) -> (r: bool)
    ensures
        r == aparece_en(s@, p@, i as int),
{
    let n = s.unicode_len();
    let m = p.unicode_len();
    if i > n || m > n - i {
        return false;
    }
    let mut k: usize = 0;
    while k < m
        invariant
            n == s@.len(),
            m == p@.len(),
            i + m <= n,
            k <= m,
            forall|j: int| 0 <= j < k ==> s@[i + j] == p@[j],
        decreases m - k,
    {
        if s.get_char(i + k) != p.get_char(k) {
            assert(s@.subrange(i as int, i + m)[k as int] != p@[k as int]);
            return false;
        }
        k = k + 1;
    }
    assert(s@.subrange(i as int, i + m) =~= p@);
    true
}

/// `str::starts_with` for a text prefix.
pub fn empieza_con_exec(s: &str, p: &str) -> (r: bool)
    ensures
        r == empieza_con(s@, p@),
{
    aparece_en_exec(s, p, 0)
}

/// `str::ends_with` for a text suffix.
pub fn termina_con_exec(s: &str, p: &str) -> (r: bool)
    ensures
        r == termina_con(s@, p@),
{
    let n = s.unicode_len();
    let m = p.unicode_len();
    if m > n {
        return false;
    }
    aparece_en_exec(s, p, n - m)
}

/// First character position where `p` occurs in `s`.
pub fn buscar(s: &str, p: &str) -> (r: Option<usize>)
    ensures
        match r {
            Some(i) => aparece_en(s@, p@, i as int) && forall|j: int|
                0 <= j < i ==> !aparece_en(s@, p@, j),
            None => !contiene(s@, p@),
        },
{
    let n = s.unicode_len();
    let m = p.unicode_len();
    if m > n {
        return None;
    }
    let mut i: usize = 0;
    loop
        invariant
            n == s@.len(),
            m == p@.len(),
            m <= n,
            i <= n - m,
            forall|j: int| 0 <= j < i ==> !aparece_en(s@, p@, j),
        ensures
            forall|j: int| 0 <= j <= n - m ==> !aparece_en(s@, p@, j),
        decreases n - m - i,
    {
        if aparece_en_exec(s, p, i) {
            return Some(i);
        }
        if i == n - m {
            break;
        }
        i = i + 1;
    }
    assert forall|j: int| !aparece_en(s@, p@, j) by {
        if 0 <= j <= n - m {
        }
    }
    None
}

/// `str::contains` for a text pattern.
pub fn contiene_exec(s: &str, p: &str) -> (r: bool)
    ensures
        r == contiene(s@, p@),
{
    match buscar(s, p) {
        Some(_) => true,
        None => false,
    }
}

/// `str::to_ascii_lowercase`.
pub fn a_minusculas(s: &str) -> (r: String)
    ensures
        r@ == minusculas(s@),
{
    let n = s.unicode_len();
    let mut r = String::new();
    let mut i: usize = 0;
    while i < n
        invariant
            n == s@.len(),
            i <= n,
            r@ == minusculas(s@.subrange(0, i as int)),
        decreases n - i,
    {
        let c = s.get_char(i);
        let d = if 'A' <= c && c <= 'Z' {
            ((c as u8) + 32) as char
        } else {
            c
        };
        r.push(d);
        assert(s@.subrange(0, i + 1) =~= s@.subrange(0, i as int).push(c));
        assert(minusculas(s@.subrange(0, i + 1)) =~= minusculas(s@.subrange(0, i as int)).push(
            minuscula_ascii(c),
        ));
        i = i + 1;
    }
    assert(s@.subrange(0, n as int) =~= s@);
    r
}

/// `str::to_ascii_uppercase`.
pub fn a_mayusculas(s: &str) -> (r: String)
    ensures
        r@ == mayusculas(s@),
{
    let n = s.unicode_len();
    let mut r = String::new();
    let mut i: usize = 0;
    while i < n
        invariant
            n == s@.len(),
            i <= n,
            r@ == mayusculas(s@.subrange(0, i as int)),
        decreases n - i,
    {
        let c = s.get_char(i);
        let d = if 'a' <= c && c <= 'z' {
            ((c as u8) - 32) as char
        } else {
            c
        };
        r.push(d);
        assert(s@.subrange(0, i + 1) =~= s@.subrange(0, i as int).push(c));
        assert(mayusculas(s@.subrange(0, i + 1)) =~= mayusculas(s@.subrange(0, i as int)).push(
            mayuscula_ascii(c),
        ));
        i = i + 1;
    }
    assert(s@.subrange(0, n as int) =~= s@);
    r
}

/// `str::trim`: the text without leading and trailing white space.
pub fn recortar(s: &str) -> (r: &str)
    ensures
        r@ == recortado(s@),
{
    let n = s.unicode_len();
    let mut i: usize = 0;
    assert(s@.subrange(0, n as int) =~= s@);
    while i < n && es_espacio_exec(s.get_char(i))
        invariant
            n == s@.len(),
            i <= n,
            sin_espacio_inicial(s@) == sin_espacio_inicial(s@.subrange(i as int, n as int)),
        decreases n - i,
    {
        let ghost resto = s@.subrange(i as int, n as int);
        assert(resto.drop_first() =~= s@.subrange(i + 1, n as int));
        i = i + 1;
    }
    let ghost inicio = s@.subrange(i as int, n as int);
    assert(sin_espacio_inicial(inicio) == inicio);
    let mut f: usize = n;
    while f > i && es_espacio_exec(s.get_char(f - 1))
        invariant
            n == s@.len(),
            i <= f <= n,
            inicio == s@.subrange(i as int, n as int),
            sin_espacio_final(inicio) == sin_espacio_final(s@.subrange(i as int, f as int)),
        decreases f,
    {
        let ghost resto = s@.subrange(i as int, f as int);
        assert(resto.drop_last() =~= s@.subrange(i as int, f - 1));
        f = f - 1;
    }
    let r = s.substring_char(i, f);
    r
}

/// `Display` of an unsigned integer.
pub fn decimal_u64(n: u64) -> (r: String)
    ensures
        r@ == decimal(n as nat),
    decreases n,
{
    if n < 10 {
        let mut r = String::new();
        let d = (48u8 + (n as u8)) as char;
        assert(d == digito(n as nat));
        r.push(d);
        assert(r@ =~= seq![digito(n as nat)]);
        r
    } else {
        let mut r = decimal_u64(n / 10);
        let d = (48u8 + ((n % 10) as u8)) as char;
        assert(d == digito((n % 10) as nat));
        r.push(d);
        r
    }
}

/// `Display` of a `usize`.
pub fn decimal_usize(n: usize) -> (r: String)
    ensures
        r@ == decimal(n as nat),
{
    decimal_u64(n as u64)
}

/// `str::replace` of one character by another.
pub fn cambiar_caracter_exec(s: &str, de: char, a: char) -> (r: String)
    ensures
        r@ == cambiar_caracter(s@, de, a),
{
    let n = s.unicode_len();
    let mut r = String::new();
    let mut i: usize = 0;
    while i < n
        invariant
            n == s@.len(),
            i <= n,
            r@ == cambiar_caracter(s@.subrange(0, i as int), de, a),
        decreases n - i,
    {
        let c = s.get_char(i);
        r.push(if c == de { a } else { c });
        assert(s@.subrange(0, i + 1) =~= s@.subrange(0, i as int).push(c));
        assert(cambiar_caracter(s@.subrange(0, i + 1), de, a) =~= cambiar_caracter(
            s@.subrange(0, i as int),
            de,
            a,
        ).push(if c == de { a } else { c }));
        i = i + 1;
    }
    assert(s@.subrange(0, n as int) =~= s@);
    r
}

/// Position of the first occurrence of a character.
pub fn posicion(s: &str, c: char) -> (r: Option<usize>)
    ensures
        match r {
            Some(i) => primera_posicion(s@, c) == Some(i as int),
            None => primera_posicion(s@, c) is None,
        },
{
    let n = s.unicode_len();
    let mut i: usize = 0;
    while i < n
        invariant
            n == s@.len(),
            i <= n,
            forall|j: int| 0 <= j < i ==> s@[j] != c,
        decreases n - i,
    {
        if s.get_char(i) == c {
            proof {
                lema_primera_posicion(s@, c);
            }
            return Some(i);
        }
        i = i + 1;
    }
    proof {
        lema_primera_posicion(s@, c);
    }
    None
}

/// The piece after the last occurrence of `c` (all of `s` when `c` does not
/// occur): the first item of `str::rsplit`.
pub open spec fn tras_ultimo(s: Seq<char>, c: char) -> Seq<char>
    decreases s.len(),
{
    if s.len() == 0 {
        s
    } else if s.last() == c {
        Seq::empty()
    } else {
        tras_ultimo(s.drop_last(), c).push(s.last())
    }
}

pub fn tras_ultimo_exec(s: &str, c: char) -> (r: &str)
    ensures
        r@ == tras_ultimo(s@, c),
{
    let n = s.unicode_len();
    let mut f: usize = n;
    assert(s@.subrange(0, n as int) =~= s@);
    assert(s@.subrange(n as int, n as int) =~= Seq::<char>::empty());
    assert(tras_ultimo(s@, c) + Seq::<char>::empty() =~= tras_ultimo(s@, c));
    while f > 0 && s.get_char(f - 1) != c
        invariant
            n == s@.len(),
            f <= n,
            tras_ultimo(s@, c) == tras_ultimo(s@.subrange(0, f as int), c) + s@.subrange(
                f as int,
                n as int,
            ),
        decreases f,
    {
        let ghost pre = s@.subrange(0, f as int);
        assert(pre.drop_last() =~= s@.subrange(0, f - 1));
        assert(s@.subrange(f - 1, n as int) =~= seq![pre.last()] + s@.subrange(f as int, n as int));
        assert(tras_ultimo(pre, c) =~= tras_ultimo(pre.drop_last(), c).push(pre.last()));
        assert(tras_ultimo(s@.subrange(0, f - 1), c).push(pre.last()) + s@.subrange(f as int, n as int)
            =~= tras_ultimo(s@.subrange(0, f - 1), c) + s@.subrange(f - 1, n as int));
        f = f - 1;
    }
    if f > 0 {
        assert(tras_ultimo(s@.subrange(0, f as int), c) =~= Seq::<char>::empty());
    } else {
        assert(tras_ultimo(s@.subrange(0, f as int), c) =~= Seq::<char>::empty());
    }
    assert(Seq::<char>::empty() + s@.subrange(f as int, n as int) =~= s@.subrange(f as int, n as int));
    s.substring_char(f, n)
}

/// `str::replace` of a non-empty pattern: occurrences are taken from left to
/// right without overlapping.
/// `r` before each character of `s` and once more at the end: what
/// `str::replace` gives for an empty pattern.
pub open spec fn intercalado(s: Seq<char>, r: Seq<char>) -> Seq<char>
    decreases s.len(),
{
    if s.len() == 0 {
        r
    } else {
        r + seq![s[0]] + intercalado(s.drop_first(), r)
    }
}

/// What `str::replace` gives: each match of `p`, from left to right and not
/// overlapping, replaced by `r`.
pub open spec fn reemplazo(s: Seq<char>, p: Seq<char>, r: Seq<char>) -> Seq<char>
    decreases s.len(),
{
    if p.len() == 0 {
        intercalado(s, r)
    } else if s.len() < p.len() {
        s
    } else if s.subrange(0, p.len() as int) == p {
        r + reemplazo(s.subrange(p.len() as int, s.len() as int), p, r)
    } else {
        seq![s[0]] + reemplazo(s.drop_first(), p, r)
    }
}

fn intercalar(s: &str, r: &str) -> (res: String)
    ensures
        res@ == intercalado(s@, r@),
{
    let n = s.unicode_len();
    let mut res = String::new();
    let mut i: usize = 0;
    assert(s@.subrange(0, n as int) =~= s@);
    while i < n
        invariant
            n == s@.len(),
            i <= n,
            intercalado(s@, r@) == res@ + intercalado(s@.subrange(i as int, n as int), r@),
        decreases n - i,
    {
        let ghost resto = s@.subrange(i as int, n as int);
        let c = s.get_char(i);
        assert(resto.drop_first() =~= s@.subrange(i + 1, n as int));
        let ghost antes = res@;
        let ghost cola = intercalado(s@.subrange(i + 1, n as int), r@);
        res.append(r);
        res.push(c);
        assert(antes + (r@ + seq![c] + cola) =~= res@ + cola);
        i = i + 1;
    }
    assert(s@.subrange(n as int, n as int) =~= Seq::<char>::empty());
    res.append(r);
    res
}

pub fn reemplazar(s: &str, p: &str, r: &str) -> (res: String)
    ensures
        res@ == reemplazo(s@, p@, r@),
{
    let n = s.unicode_len();
    let m = p.unicode_len();
    if m == 0 {
        return intercalar(s, r);
    }
    let mut res = String::new();
    let mut i: usize = 0;
    assert(s@.subrange(0, n as int) =~= s@);
    while i < n
        invariant
            n == s@.len(),
            m == p@.len(),
            m > 0,
            i <= n,
            reemplazo(s@, p@, r@) == res@ + reemplazo(s@.subrange(i as int, n as int), p@, r@),
        decreases n - i,
    {
        let ghost resto = s@.subrange(i as int, n as int);
        if aparece_en_exec(s, p, i) {
            assert(resto.subrange(0, m as int) =~= s@.subrange(i as int, i + m));
            assert(resto.subrange(m as int, resto.len() as int) =~= s@.subrange(i + m, n as int));
            let ghost antes = res@;
            let ghost cola = reemplazo(s@.subrange(i + m, n as int), p@, r@);
            res.append(r);
            assert(antes + (r@ + cola) =~= res@ + cola);
            i = i + m;
        } else {
            let c = s.get_char(i);
            if m <= n - i {
                assert(resto.subrange(0, m as int) =~= s@.subrange(i as int, i + m));
            }
            assert(resto.drop_first() =~= s@.subrange(i + 1, n as int));
            let ghost antes = res@;
            let ghost cola = reemplazo(s@.subrange(i + 1, n as int), p@, r@);
            res.push(c);
            assert(antes + (seq![c] + cola) =~= res@ + cola);
            i = i + 1;
        }
    }
    assert(s@.subrange(n as int, n as int) =~= Seq::<char>::empty());
    assert(res@ + Seq::<char>::empty() =~= res@);
    res
}

/// The pieces of `str::split` on a character.
pub open spec fn partes(s: Seq<char>, c: char) -> Seq<Seq<char>>
    decreases s.len(),
{
    match primera_posicion(s, c) {
        None => seq![s],
        Some(i) => if 0 <= i < s.len() {
            seq![s.subrange(0, i)] + partes(s.subrange(i + 1, s.len() as int), c)
        } else {
            seq![s]
        },
    }
}

pub open spec fn vistas(v: Seq<String>) -> Seq<Seq<char>> {
    v.map_values(|t: String| t@)
}

/// `str::split` on a character, each piece owned.
pub fn partir(s: &str, c: char) -> (r: Vec<String>)
    ensures
        vistas(r@) == partes(s@, c),
{
    let n = s.unicode_len();
    let mut r: Vec<String> = Vec::new();
    let mut inicio: usize = 0;
    let mut i: usize = 0;
    assert(s@.subrange(0, n as int) =~= s@);
    while i < n
        invariant
            n == s@.len(),
            inicio <= i <= n,
            forall|j: int| inicio <= j < i ==> s@[j] != c,
            partes(s@, c) == vistas(r@) + partes(s@.subrange(inicio as int, n as int), c),
        decreases n - i,
    {
        if s.get_char(i) == c {
            let ghost resto = s@.subrange(inicio as int, n as int);
            proof {
                lema_primera_posicion(resto, c);
                let k = (i - inicio) as int;
                assert(resto[k] == c);
                match primera_posicion(resto, c) {
                    Some(q) => {
                        if q < k {
                            assert(resto[q] == s@[inicio + q]);
                        }
                        if q > k {
                        }
                    },
                    None => {},
                }
                assert(primera_posicion(resto, c) == Some(k));
                assert(resto.subrange(0, k) =~= s@.subrange(inicio as int, i as int));
                assert(resto.subrange(k + 1, resto.len() as int) =~= s@.subrange(i + 1, n as int));
            }
            let pieza = s.substring_char(inicio, i);
            let ghost antes = r@;
            r.push(String::from_str(pieza));
            assert(vistas(r@) =~= vistas(antes).push(pieza@));
            assert(vistas(antes) + (seq![pieza@] + partes(s@.subrange(i + 1, n as int), c))
                =~= vistas(r@) + partes(s@.subrange(i + 1, n as int), c));
            inicio = i + 1;
        }
        i = i + 1;
    }
    let ghost resto = s@.subrange(inicio as int, n as int);
    proof {
        lema_primera_posicion(resto, c);
        match primera_posicion(resto, c) {
            Some(q) => {
                assert(resto[q] == s@[inicio + q]);
            },
            None => {},
        }
    }
    let pieza = s.substring_char(inicio, n);
    let ghost antes = r@;
    r.push(String::from_str(pieza));
    assert(vistas(r@) =~= vistas(antes).push(pieza@));
    assert(vistas(antes) + seq![pieza@] =~= vistas(r@));
    r
}

pub open spec fn es_digito(c: char) -> bool {
    '0' <= c && c <= '9'
}

pub open spec fn todos_digitos(s: Seq<char>) -> bool {
    forall|i: int| 0 <= i < s.len() ==> es_digito(#[trigger] s[i])
}

/// The number that a run of decimal digits writes.
pub open spec fn valor_digitos(s: Seq<char>) -> nat
    decreases s.len(),
{
    if s.len() == 0 {
        0
    } else {
        valor_digitos(s.drop_last()) * 10 + ((s.last() as nat) - ('0' as nat)) as nat
    }
}

/// What `str::parse::<u32>` accepts: an optional `+` and then one or more
/// decimal digits whose value fits in 32 bits.
pub open spec fn leer_u32(s: Seq<char>) -> Option<u32> {
    let d = if s.len() > 0 && s[0] == '+' { s.drop_first() } else { s };
    if d.len() > 0 && todos_digitos(d) && valor_digitos(d) <= u32::MAX {
        Some(valor_digitos(d) as u32)
    } else {
        None
    }
}

/// What `str::parse::<usize>` accepts.
pub open spec fn leer_usize(s: Seq<char>) -> Option<usize> {
    let d = if s.len() > 0 && s[0] == '+' { s.drop_first() } else { s };
    if d.len() > 0 && todos_digitos(d) && valor_digitos(d) <= usize::MAX {
        Some(valor_digitos(d) as usize)
    } else {
        None
    }
}

/// What `str::parse::<u8>` accepts.
pub open spec fn leer_u8(s: Seq<char>) -> Option<u8> {
    let d = if s.len() > 0 && s[0] == '+' { s.drop_first() } else { s };
    if d.len() > 0 && todos_digitos(d) && valor_digitos(d) <= u8::MAX {
        Some(valor_digitos(d) as u8)
    } else {
        None
    }
}

proof fn lema_valor_digitos_crece(s: Seq<char>, k: int)
    requires
        0 <= k <= s.len(),
        todos_digitos(s),
    ensures
        valor_digitos(s.subrange(0, k)) <= valor_digitos(s),
    decreases s.len() - k,
{
    if k < s.len() {
        lema_valor_digitos_crece(s, k + 1);
        assert(s.subrange(0, k + 1).drop_last() =~= s.subrange(0, k));
        assert(es_digito(s[k]));
    } else {
        assert(s.subrange(0, k) =~= s);
    }
}

/// Reads the digits of `s` from position `desde`, as long as the value stays
/// at most `tope`.
fn leer_digitos(s: &str, desde: usize, tope: u64) -> (r: Option<u64>)
    requires
        desde <= s@.len(),
    ensures
        ({
            let d = s@.subrange(desde as int, s@.len() as int);
            match r {
                Some(v) => d.len() > 0 && todos_digitos(d) && valor_digitos(d) == v && v <= tope,
                None => !(d.len() > 0 && todos_digitos(d) && valor_digitos(d) <= tope),
            }
        }),
{
    let n = s.unicode_len();
    let ghost d = s@.subrange(desde as int, n as int);
    if desde == n {
        return None;
    }
    let mut v: u64 = 0;
    let mut i: usize = desde;
    while i < n
        invariant
            n == s@.len(),
            desde <= i <= n,
            d == s@.subrange(desde as int, n as int),
            todos_digitos(s@.subrange(desde as int, i as int)),
            v == valor_digitos(s@.subrange(desde as int, i as int)),
            v <= tope,
        decreases n - i,
    {
        let c = s.get_char(i);
        let ghost previo = s@.subrange(desde as int, i as int);
        let ghost siguiente = s@.subrange(desde as int, i + 1);
        assert(siguiente.drop_last() =~= previo);
        assert(d.subrange(0, i - desde) =~= previo);
        assert(d.subrange(0, i + 1 - desde) =~= siguiente);
        if !('0' <= c && c <= '9') {
            assert(d[i - desde] == c);
            return None;
        }
        let nuevo: u128 = (v as u128) * 10 + ((c as u32 - 48) as u128);
        if nuevo > tope as u128 {
            proof {
                if todos_digitos(d) {
                    lema_valor_digitos_crece(d, i + 1 - desde);
                }
            }
            return None;
        }
        v = nuevo as u64;
        i = i + 1;
    }
    assert(s@.subrange(desde as int, n as int) =~= d);
    Some(v)
}

/// `str::parse::<u32>`.
pub fn leer_u32_exec(s: &str) -> (r: Option<u32>)
    ensures
        r == leer_u32(s@),
{
    let n = s.unicode_len();
    let desde: usize = if n > 0 && s.get_char(0) == '+' { 1 } else { 0 };
    assert(s@.subrange(desde as int, n as int) =~= (if s@.len() > 0 && s@[0] == '+' { s@.drop_first() } else { s@ }));
    match leer_digitos(s, desde, 4294967295u64) {
        Some(v) => Some(v as u32),
        None => None,
    }
}

/// `str::parse::<usize>`.
pub fn leer_usize_exec(s: &str) -> (r: Option<usize>)
    ensures
        r == leer_usize(s@),
{
    let n = s.unicode_len();
    let desde: usize = if n > 0 && s.get_char(0) == '+' { 1 } else { 0 };
    assert(s@.subrange(desde as int, n as int) =~= (if s@.len() > 0 && s@[0] == '+' { s@.drop_first() } else { s@ }));
    match leer_digitos(s, desde, usize::MAX as u64) {
        Some(v) => Some(v as usize),
        None => None,
    }
}

/// `str::parse::<u8>`.
pub fn leer_u8_exec(s: &str) -> (r: Option<u8>)
    ensures
        r == leer_u8(s@),
{
    let n = s.unicode_len();
    let desde: usize = if n > 0 && s.get_char(0) == '+' { 1 } else { 0 };
    assert(s@.subrange(desde as int, n as int) =~= (if s@.len() > 0 && s@[0] == '+' { s@.drop_first() } else { s@ }));
    match leer_digitos(s, desde, 255u64) {
        Some(v) => Some(v as u8),
        None => None,
    }
}

/// An owned copy of a text.
pub fn copiar(a: &str) -> (r: String)
    ensures
        r@ == a@,
{
    String::from_str(a)
}

/// Two texts one after the other.
pub fn unir2(a: &str, b: &str) -> (r: String)
    ensures
        r@ == a@ + b@,
{
    let mut r = String::from_str(a);
    r.append(b);
    r
}

/// Three texts one after the other.
pub fn unir3(a: &str, b: &str, c: &str) -> (r: String)
    ensures
        r@ == a@ + b@ + c@,
{
    let mut r = String::from_str(a);
    r.append(b);
    r.append(c);
    r
}

/// Texts joined by a separator, as `[T]::join` does.
pub open spec fn unidos(v: Seq<Seq<char>>, sep: Seq<char>) -> Seq<char>
    decreases v.len(),
{
    if v.len() == 0 {
        Seq::empty()
    } else if v.len() == 1 {
        v[0]
    } else {
        unidos(v.drop_last(), sep) + sep + v.last()
    }
}

pub fn unir_con(v: &Vec<String>, sep: &str) -> (r: String)
    ensures
        r@ == unidos(vistas(v@), sep@),
{
    let mut r = String::new();
    let mut i: usize = 0;
    while i < v.len()
        invariant
            i <= v@.len(),
            r@ == unidos(vistas(v@.subrange(0, i as int)), sep@),
        decreases v.len() - i,
    {
        let ghost antes = vistas(v@.subrange(0, i as int));
        let ghost despues = vistas(v@.subrange(0, i + 1));
        assert(despues.drop_last() =~= antes);
        assert(despues.last() == v@[i as int]@);
        if i > 0 {
            r.append(sep);
        }
        r.append(v[i].as_str());
        i = i + 1;
    }
    assert(v@.subrange(0, v@.len() as int) =~= v@);
    r
}

/// The characters of the Unicode uppercase mapping of one character, as
/// `char::to_uppercase` yields them.
pub uninterp spec fn mayuscula_unicode(c: char) -> Seq<char>;

/// Calls `char::to_uppercase` and collects what it yields. Besides naming the
/// result, the contract states what the std documentation gives for ASCII:
/// `a`..`z` map to `A`..`Z`, and any other ASCII character has no uppercase
/// mapping, so it comes back unchanged.
#[verifier::external_body]
pub(crate) fn mayuscula_de(c: char) -> (r: String)
    ensures
        r@ == mayuscula_unicode(c),
        'a' <= c && c <= 'z' ==> r@ == seq![mayuscula_ascii(c)],
        (c as u32) < 128 && !('a' <= c && c <= 'z') ==> r@ == seq![c],
{
    c.to_uppercase().collect::<String>()
}

/// The Unicode lowercase mapping of a text, as `str::to_lowercase` gives it.
pub uninterp spec fn minusculas_unicode(s: Seq<char>) -> Seq<char>;

/// Calls `str::to_lowercase`. The contract names the result, and states what
/// the std documentation gives for ASCII: a text made only of ASCII characters
/// comes back with `A`..`Z` mapped to `a`..`z` and every other character
/// unchanged. For other characters the mapping is Unicode's table, which the
/// documentation refers to and does not spell out.
#[verifier::external_body]
pub(crate) fn minusculas_de(s: &str) -> (r: String)
    ensures
        r@ == minusculas_unicode(s@),
        (forall|i: int| 0 <= i < s@.len() ==> (#[trigger] s@[i] as u32) < 128) ==> r@ == minusculas(s@),
{
    s.to_lowercase()
}

/// Position of the first occurrence of `p` in `s`, as `str::find` gives it.
pub open spec fn primera_aparicion(s: Seq<char>, p: Seq<char>) -> Option<int>
    decreases s.len(),
{
    if p.len() > s.len() {
        None
    } else if s.subrange(0, p.len() as int) == p {
        Some(0)
    } else if s.len() == 0 {
        None
    } else {
        match primera_aparicion(s.drop_first(), p) {
            Some(i) => Some(i + 1),
            None => None,
        }
    }
}

pub proof fn lema_primera_aparicion(s: Seq<char>, p: Seq<char>)
    ensures
        match primera_aparicion(s, p) {
            Some(i) => aparece_en(s, p, i) && forall|j: int| 0 <= j < i ==> !aparece_en(s, p, j),
            None => !contiene(s, p),
        },
    decreases s.len(),
{
    if p.len() > s.len() {
        assert forall|j: int| !aparece_en(s, p, j) by {}
    } else if s.subrange(0, p.len() as int) == p {
        assert(aparece_en(s, p, 0));
    } else if s.len() == 0 {
        assert(p.len() == 0);
        assert(s.subrange(0, 0) =~= p);
    } else {
        let t = s.drop_first();
        lema_primera_aparicion(t, p);
        assert forall|j: int| 0 <= j && j + p.len() <= t.len() implies (aparece_en(s, p, j + 1) <==> aparece_en(t, p, j)) by {
            assert(s.subrange(j + 1, j + 1 + p.len()) =~= t.subrange(j, j + p.len()));
        }
        assert(!aparece_en(s, p, 0));
        match primera_aparicion(t, p) {
            Some(i) => {
                assert(aparece_en(s, p, i + 1));
                assert forall|j: int| 0 <= j < i + 1 implies !aparece_en(s, p, j) by {
                    if j > 0 {
                        assert(!aparece_en(t, p, j - 1));
                    }
                }
            },
            None => {
                assert forall|j: int| !aparece_en(s, p, j) by {
                    if j > 0 && aparece_en(s, p, j) {
                        assert(aparece_en(t, p, j - 1));
                    }
                }
            },
        }
    }
}

/// `str::find` of a text pattern.
pub fn buscar_primera(s: &str, p: &str) -> (r: Option<usize>)
    ensures
        match r {
            Some(i) => primera_aparicion(s@, p@) == Some(i as int),
            None => primera_aparicion(s@, p@) is None,
        },
{
    proof {
        lema_primera_aparicion(s@, p@);
    }
    let r = buscar(s, p);
    proof {
        match r {
            Some(i) => {
                match primera_aparicion(s@, p@) {
                    Some(k) => {
                        if k < i {
                        }
                        if k > i {
                        }
                    },
                    None => {},
                }
            },
            None => {},
        }
    }
    r
}

/// `str::trim_start_matches` with one character.
pub open spec fn sin_inicial(s: Seq<char>, c: char) -> Seq<char>
    decreases s.len(),
{
    if s.len() > 0 && s[0] == c {
        sin_inicial(s.drop_first(), c)
    } else {
        s
    }
}

/// `str::trim_end_matches` with one character.
pub open spec fn sin_final(s: Seq<char>, c: char) -> Seq<char>
    decreases s.len(),
{
    if s.len() > 0 && s.last() == c {
        sin_final(s.drop_last(), c)
    } else {
        s
    }
}

/// `str::trim_matches` with one character.
pub open spec fn sin_bordes(s: Seq<char>, c: char) -> Seq<char> {
    sin_final(sin_inicial(s, c), c)
}

pub fn quitar_inicial(s: &str, c: char) -> (r: &str)
    ensures
        r@ == sin_inicial(s@, c),
{
    let n = s.unicode_len();
    let mut i: usize = 0;
    assert(s@.subrange(0, n as int) =~= s@);
    while i < n && s.get_char(i) == c
        invariant
            n == s@.len(),
            i <= n,
            sin_inicial(s@, c) == sin_inicial(s@.subrange(i as int, n as int), c),
        decreases n - i,
    {
        assert(s@.subrange(i as int, n as int).drop_first() =~= s@.subrange(i + 1, n as int));
        i = i + 1;
    }
    s.substring_char(i, n)
}

pub fn quitar_final(s: &str, c: char) -> (r: &str)
    ensures
        r@ == sin_final(s@, c),
{
    let n = s.unicode_len();
    let mut f: usize = n;
    assert(s@.subrange(0, n as int) =~= s@);
    while f > 0 && s.get_char(f - 1) == c
        invariant
            n == s@.len(),
            f <= n,
            sin_final(s@, c) == sin_final(s@.subrange(0, f as int), c),
        decreases f,
    {
        assert(s@.subrange(0, f as int).drop_last() =~= s@.subrange(0, f - 1));
        f = f - 1;
    }
    s.substring_char(0, f)
}

pub fn quitar_bordes(s: &str, c: char) -> (r: &str)
    ensures
        r@ == sin_bordes(s@, c),
{
    quitar_final(quitar_inicial(s, c), c)
}

/// The text after the first occurrence of `c`: the second half of
/// `str::split_once`.
pub open spec fn tras_primero(s: Seq<char>, c: char) -> Option<Seq<char>> {
    match primera_posicion(s, c) {
        Some(i) => Some(s.subrange(i + 1, s.len() as int)),
        None => None,
    }
}

/// The text before the first occurrence of `c`: the first half of
/// `str::split_once`.
pub open spec fn antes_primero(s: Seq<char>, c: char) -> Option<Seq<char>> {
    match primera_posicion(s, c) {
        Some(i) => Some(s.subrange(0, i)),
        None => None,
    }
}

pub fn partir_una_vez(s: &str, c: char) -> (r: Option<(&str, &str)>)
    ensures
        match r {
            Some((a, b)) => antes_primero(s@, c) == Some(a@) && tras_primero(s@, c) == Some(b@),
            None => primera_posicion(s@, c) is None,
        },
{
    proof {
        lema_primera_posicion(s@, c);
    }
    match posicion(s, c) {
        Some(i) => {
            let n = s.unicode_len();
            Some((s.substring_char(0, i), s.substring_char(i + 1, n)))
        },
        None => None,
    }
}

/// The text before the first occurrence of `c`, or all of it: the first item
/// of `str::split`.
pub open spec fn hasta_primero(s: Seq<char>, c: char) -> Seq<char> {
    match primera_posicion(s, c) {
        Some(i) => s.subrange(0, i),
        None => s,
    }
}

pub fn hasta_primero_exec(s: &str, c: char) -> (r: &str)
    ensures
        r@ == hasta_primero(s@, c),
{
    proof {
        lema_primera_posicion(s@, c);
    }
    match posicion(s, c) {
        Some(i) => s.substring_char(0, i),
        None => s,
    }
}

/// A text is not "Korunix" when its length or one of its characters differs.
pub proof fn lema_distinto_de_korunix(s: Seq<char>)
    requires
        s.len() != 7 || s[0] != 'K' || s[1] != 'o' || s[2] != 'r' || s[3] != 'u' || s[4] != 'n' || s[5] != 'i' || s[6] != 'x',
    ensures
        s != "Korunix"@,
{
    reveal_strlit("Korunix");
}

} // verus!
