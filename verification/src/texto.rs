//! Text normalization: trimming of surrounding whitespace and ASCII
//! lowercasing, as applied to every input string before validation.

use vstd::prelude::*;

verus! {

/// Characters treated as trimmable whitespace (the ASCII whitespace set).
pub open spec fn eh_espaco(c: char) -> bool {
    c == ' ' || c == '\t' || c == '\n' || c == '\r' || c == '\u{000B}' || c == '\u{000C}'
}

/// The sequence with its leading whitespace removed.
pub open spec fn aparar_esq(s: Seq<char>) -> Seq<char>
    decreases s.len(),
{
    if s.len() > 0 && eh_espaco(s[0]) {
        aparar_esq(s.drop_first())
    } else {
        s
    }
}

/// The sequence with its trailing whitespace removed.
pub open spec fn aparar_dir(s: Seq<char>) -> Seq<char>
    decreases s.len(),
{
    if s.len() > 0 && eh_espaco(s[s.len() - 1]) {
        aparar_dir(s.drop_last())
    } else {
        s
    }
}

/// The sequence with surrounding whitespace removed.
pub open spec fn aparar(s: Seq<char>) -> Seq<char> {
    aparar_dir(aparar_esq(s))
}

/// The ASCII-lowercased counterpart of a character; characters outside
/// `'A'..='Z'` are kept as they are.
pub open spec fn minuscula(c: char) -> char {
    if 65 <= c as u32 && c as u32 <= 90 {
        ((c as u32 + 32) as u8) as char
    } else {
        c
    }
}

/// The sequence with every character ASCII-lowercased.
pub open spec fn minusculas(s: Seq<char>) -> Seq<char> {
    Seq::new(s.len(), |i: int| minuscula(s[i]))
}

proof fn lema_aparar_esq_salto(s: Seq<char>, i: int)
    requires
        0 <= i <= s.len(),
        forall|k: int| 0 <= k < i ==> eh_espaco(s[k]),
        i == s.len() || !eh_espaco(s[i]),
    ensures
        aparar_esq(s) == s.skip(i),
    decreases i,
{
    if i == 0 {
        assert(s.skip(0) =~= s);
    } else {
        assert(eh_espaco(s[0]));
        let resto = s.drop_first();
        assert(forall|k: int| 0 <= k < i - 1 ==> eh_espaco(resto[k]));
        lema_aparar_esq_salto(resto, i - 1);
        assert(resto.skip(i - 1) =~= s.skip(i));
    }
}

proof fn lema_aparar_dir_corte(s: Seq<char>, j: int)
    requires
        0 <= j <= s.len(),
        forall|k: int| j <= k < s.len() ==> eh_espaco(s[k]),
        j == 0 || !eh_espaco(s[j - 1]),
    ensures
        aparar_dir(s) == s.take(j),
    decreases s.len() - j,
{
    if j == s.len() {
        assert(s.take(j) =~= s);
    } else {
        assert(eh_espaco(s[s.len() - 1]));
        let resto = s.drop_last();
        assert(forall|k: int| j <= k < resto.len() ==> eh_espaco(resto[k]));
        lema_aparar_dir_corte(resto, j);
        assert(resto.take(j) =~= s.take(j));
    }
}

fn eh_espaco_exec(c: char) -> (r: bool)
    ensures
        r == eh_espaco(c),
{
    c == ' ' || c == '\t' || c == '\n' || c == '\r' || c == '\u{000B}' || c == '\u{000C}'
}

/// Removes surrounding whitespace from a string.
pub fn aparar_texto(s: &str) -> (r: String)
    ensures
        r@ == aparar(s@),
{
    let n = s.unicode_len();
    let mut i: usize = 0;
    while i < n && eh_espaco_exec(s.get_char(i))
        invariant
            0 <= i <= n,
            n == s@.len(),
            forall|k: int| 0 <= k < i ==> eh_espaco(s@[k]),
        decreases n - i,
    {
        i = i + 1;
    }
    if i == n {
        proof {
            lema_aparar_esq_salto(s@, n as int);
            assert(s@.skip(n as int) =~= Seq::<char>::empty());
        }
        return String::new();
    }
    let mut j: usize = n;
    while j > i + 1 && eh_espaco_exec(s.get_char(j - 1))
        invariant
            i < j <= n,
            n == s@.len(),
            !eh_espaco(s@[i as int]),
            forall|k: int| j <= k < n ==> eh_espaco(s@[k]),
        decreases j,
    {
        j = j - 1;
    }
    let sub = s.substring_char(i, j);
    proof {
        lema_aparar_esq_salto(s@, i as int);
        let meio = s@.skip(i as int);
        assert(!eh_espaco(meio[j - i - 1])) by {
            assert(meio[j - i - 1] == s@[j - 1]);
        }
        assert(forall|k: int| j - i <= k < meio.len() ==> eh_espaco(#[trigger] meio[k])) by {
            assert(forall|k: int| j - i <= k < meio.len() ==> #[trigger] meio[k] == s@[k + i]);
        }
        lema_aparar_dir_corte(meio, j - i);
        assert(meio.take(j - i) =~= s@.subrange(i as int, j as int));
    }
    String::from_str(sub)
}

fn minuscula_exec(c: char) -> (r: char)
    ensures
        r == minuscula(c),
{
    let u = c as u32;
    if 65 <= u && u <= 90 {
        ((u + 32) as u8) as char
    } else {
        c
    }
}

/// Relies on `String::push`: appends one character at the end of the string.
#[verifier::external_body]
fn empurrar_char(s: &mut String, c: char)
    ensures
        final(s)@ == old(s)@.push(c),
{
    s.push(c);
}

/// ASCII-lowercases a string.
pub fn minusculas_texto(s: &str) -> (r: String)
    ensures
        r@ == minusculas(s@),
{
    let n = s.unicode_len();
    let mut r = String::new();
    let mut i: usize = 0;
    while i < n
        invariant
            0 <= i <= n,
            n == s@.len(),
            r@ =~= minusculas(s@).take(i as int),
        decreases n - i,
    {
        let c = s.get_char(i);
        empurrar_char(&mut r, minuscula_exec(c));
        proof {
            assert(r@ =~= minusculas(s@).take(i + 1));
        }
        i = i + 1;
    }
    proof {
        assert(minusculas(s@).take(n as int) =~= minusculas(s@));
    }
    r
}

} // verus!
