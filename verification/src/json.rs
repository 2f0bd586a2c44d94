//! The engine's JSON reports as plain values, and the ways the interface
//! reads them: member lookup, JSON Pointer (RFC 6901) and the typed views.

use vstd::prelude::*;
use crate::cadena::{iguales, leer_usize, leer_usize_exec, partes, partir, reemplazar, reemplazo, vistas};

verus! {

/// A JSON number as the interface reads it: its value as an unsigned or a
/// signed 64-bit integer when it is one, and the text that `Display` writes.
pub struct Numero {
    pub natural: Option<u64>,
    pub entero: Option<i64>,
    pub texto: String,
}

/// One member of a JSON object.
pub struct Campo {
    pub clave: String,
    pub valor: Json,
}

/// A JSON document. Objects keep their members in the order they were read.
pub enum Json {
    Nulo,
    Booleano(bool),
    Numero(Numero),
    Texto(String),
    Lista(Vec<Json>),
    Objeto(Vec<Campo>),
}

/// The value behind an optional reference.
pub open spec fn valor_de(r: Option<&Json>) -> Option<Json> {
    match r {
        Some(v) => Some(*v),
        None => None,
    }
}

/// The value of the first member named `clave`.
pub open spec fn campo_en(campos: Seq<Campo>, clave: Seq<char>) -> Option<Json>
    decreases campos.len(),
{
    if campos.len() == 0 {
        None
    } else if campos[0].clave@ == clave {
        Some(campos[0].valor)
    } else {
        campo_en(campos.drop_first(), clave)
    }
}

/// `Value::get` with a member name: only objects have members.
pub open spec fn obtener(j: Json, clave: Seq<char>) -> Option<Json> {
    match j {
        Json::Objeto(campos) => campo_en(campos@, clave),
        _ => None,
    }
}

pub open spec fn obtener_opt(j: Option<Json>, clave: Seq<char>) -> Option<Json> {
    match j {
        Some(v) => obtener(v, clave),
        None => None,
    }
}

pub open spec fn texto_de(j: Option<Json>) -> Option<Seq<char>> {
    match j {
        Some(Json::Texto(t)) => Some(t@),
        _ => None,
    }
}

pub open spec fn natural_de(j: Option<Json>) -> Option<u64> {
    match j {
        Some(Json::Numero(n)) => n.natural,
        _ => None,
    }
}

pub open spec fn booleano_de(j: Option<Json>) -> Option<bool> {
    match j {
        Some(Json::Booleano(b)) => Some(b),
        _ => None,
    }
}

pub open spec fn lista_de(j: Option<Json>) -> Option<Seq<Json>> {
    match j {
        Some(Json::Lista(v)) => Some(v@),
        _ => None,
    }
}

pub open spec fn objeto_de(j: Option<Json>) -> Option<Seq<Campo>> {
    match j {
        Some(Json::Objeto(v)) => Some(v@),
        _ => None,
    }
}

/// Length of the array found there, 0 when there is none.
pub open spec fn largo_lista(j: Option<Json>) -> nat {
    match lista_de(j) {
        Some(v) => v.len(),
        None => 0,
    }
}

/// A pointer token with `~1` read as `/` and then `~0` read as `~`.
pub open spec fn token_puntero(t: Seq<char>) -> Seq<char> {
    reemplazo(reemplazo(t, seq!['~', '1'], seq!['/']), seq!['~', '0'], seq!['~'])
}

/// What an array index token means: no sign, no leading zero, and an index
/// inside the array.
pub open spec fn indice_token(t: Seq<char>, largo: nat) -> Option<int> {
    if (t.len() > 0 && t[0] == '+') || (t.len() > 0 && t[0] == '0' && t.len() != 1) {
        None
    } else {
        match leer_usize(t) {
            Some(i) => if i < largo {
                Some(i as int)
            } else {
                None
            },
            None => None,
        }
    }
}

/// One step of a pointer.
pub open spec fn paso(j: Json, token: Seq<char>) -> Option<Json> {
    match j {
        Json::Objeto(campos) => campo_en(campos@, token),
        Json::Lista(v) => match indice_token(token, v@.len()) {
            Some(i) => Some(v@[i]),
            None => None,
        },
        _ => None,
    }
}

/// Following the raw tokens of a pointer.
pub open spec fn seguir(j: Json, tokens: Seq<Seq<char>>) -> Option<Json>
    decreases tokens.len(),
{
    if tokens.len() == 0 {
        Some(j)
    } else {
        match paso(j, token_puntero(tokens[0])) {
            Some(v) => seguir(v, tokens.drop_first()),
            None => None,
        }
    }
}

/// `Value::pointer`.
pub open spec fn apuntar(j: Json, puntero: Seq<char>) -> Option<Json> {
    if puntero.len() == 0 {
        Some(j)
    } else if puntero[0] != '/' {
        None
    } else {
        seguir(j, partes(puntero.drop_first(), '/'))
    }
}

impl Json {
    /// `Value::get` with a member name.
    pub fn obtener(&self, clave: &str) -> (r: Option<&Json>)
        ensures
            valor_de(r) == obtener(*self, clave@),
    {
        match self {
            Json::Objeto(campos) => campo_exec(campos, clave),
            _ => None,
        }
    }

    /// `Value::as_str`.
    pub fn como_texto(&self) -> (r: Option<&str>)
        ensures
            match r {
                Some(t) => texto_de(Some(*self)) == Some(t@),
                None => texto_de(Some(*self)) is None,
            },
    {
        match self {
            Json::Texto(t) => Some(t.as_str()),
            _ => None,
        }
    }

    /// `Value::as_u64`.
    pub fn como_u64(&self) -> (r: Option<u64>)
        ensures
            r == natural_de(Some(*self)),
    {
        match self {
            Json::Numero(n) => n.natural,
            _ => None,
        }
    }

    /// `Value::as_bool`.
    pub fn como_bool(&self) -> (r: Option<bool>)
        ensures
            r == booleano_de(Some(*self)),
    {
        match self {
            Json::Booleano(b) => Some(*b),
            _ => None,
        }
    }

    /// `Value::as_array`.
    pub fn como_lista(&self) -> (r: Option<&Vec<Json>>)
        ensures
            match r {
                Some(v) => lista_de(Some(*self)) == Some(v@),
                None => lista_de(Some(*self)) is None,
            },
    {
        match self {
            Json::Lista(v) => Some(v),
            _ => None,
        }
    }

    /// `Value::as_object`.
    pub fn como_objeto(&self) -> (r: Option<&Vec<Campo>>)
        ensures
            match r {
                Some(v) => objeto_de(Some(*self)) == Some(v@),
                None => objeto_de(Some(*self)) is None,
            },
    {
        match self {
            Json::Objeto(v) => Some(v),
            _ => None,
        }
    }

    /// `Value::pointer`.
    pub fn apuntar(&self, puntero: &str) -> (r: Option<&Json>)
        ensures
            valor_de(r) == apuntar(*self, puntero@),
    {
        let n = puntero.unicode_len();
        if n == 0 {
            return Some(self);
        }
        if puntero.get_char(0) != '/' {
            return None;
        }
        let resto = puntero.substring_char(1, n);
        assert(resto@ =~= puntero@.drop_first());
        let tokens = partir(resto, '/');
        let mut actual: &Json = self;
        let mut i: usize = 0;
        let ghost todos = vistas(tokens@);
        assert(todos.subrange(0, todos.len() as int) =~= todos);
        while i < tokens.len()
            invariant
                todos == vistas(tokens@),
                puntero@.len() > 0,
                todos == partes(puntero@.drop_first(), '/'),
                i <= tokens.len(),
                apuntar(*self, puntero@) == seguir(*actual, todos.subrange(i as int, todos.len() as int)),
            decreases tokens.len() - i,
        {
            let ghost resto_t = todos.subrange(i as int, todos.len() as int);
            assert(resto_t.drop_first() =~= todos.subrange(i + 1, todos.len() as int));
            assert(resto_t[0] == tokens@[i as int]@);
            proof {
                reveal_strlit("~1");
                reveal_strlit("/");
                reveal_strlit("~0");
                reveal_strlit("~");
                assert("~1"@ =~= seq!['~', '1']);
                assert("/"@ =~= seq!['/']);
                assert("~0"@ =~= seq!['~', '0']);
                assert("~"@ =~= seq!['~']);
            }
            let uno = reemplazar(tokens[i].as_str(), "~1", "/");
            let token = reemplazar(uno.as_str(), "~0", "~");
            match paso_exec(actual, token.as_str()) {
                Some(siguiente) => {
                    actual = siguiente;
                },
                None => {
                    return None;
                },
            }
            i = i + 1;
        }
        Some(actual)
    }
}

/// The value of the first member named `clave`.
pub fn campo_exec<'a>(campos: &'a Vec<Campo>, clave: &str) -> (r: Option<&'a Json>)
    ensures
        valor_de(r) == campo_en(campos@, clave@),
{
    let mut i: usize = 0;
    assert(campos@.subrange(0, campos@.len() as int) =~= campos@);
    while i < campos.len()
        invariant
            i <= campos@.len(),
            campo_en(campos@, clave@) == campo_en(campos@.subrange(i as int, campos@.len() as int), clave@),
        decreases campos.len() - i,
    {
        let ghost resto = campos@.subrange(i as int, campos@.len() as int);
        assert(resto.drop_first() =~= campos@.subrange(i + 1, campos@.len() as int));
        if iguales(campos[i].clave.as_str(), clave) {
            return Some(&campos[i].valor);
        }
        i = i + 1;
    }
    None
}

fn paso_exec<'a>(j: &'a Json, token: &str) -> (r: Option<&'a Json>)
    ensures
        valor_de(r) == paso(*j, token@),
{
    match j {
        Json::Objeto(campos) => campo_exec(campos, token),
        Json::Lista(v) => {
            let n = token.unicode_len();
            if n > 0 && token.get_char(0) == '+' {
                return None;
            }
            if n > 0 && token.get_char(0) == '0' && n != 1 {
                return None;
            }
            match leer_usize_exec(token) {
                Some(i) => if i < v.len() {
                    Some(&v[i])
                } else {
                    None
                },
                None => None,
            }
        },
        _ => None,
    }
}

#[verifier::external_type_specification]
#[verifier::external_body]
pub struct ValorSerde(serde_json::Value);

/// Turns a value back into `serde_json`'s own value, member for member:
/// `Nulo`, `Booleano`, `Texto`, `Lista` and `Objeto` become the variant of
/// the same name, and a number is read back from the text that `Display`
/// wrote for it. Nothing is stated of the result, which is opaque here; it
/// only feeds `texto_compacto`.
#[verifier::external_body]
fn valor_serde(j: &Json) -> serde_json::Value {
    match j {
        Json::Nulo => serde_json::Value::Null,
        Json::Booleano(b) => serde_json::Value::Bool(*b),
        Json::Numero(n) => serde_json::from_str(&n.texto).unwrap_or(serde_json::Value::Null),
        Json::Texto(t) => serde_json::Value::String(t.clone()),
        Json::Lista(v) => serde_json::Value::Array(v.iter().map(valor_serde).collect()),
        Json::Objeto(c) => serde_json::Value::Object(c.iter().map(|f| (f.clave.clone(), valor_serde(&f.valor))).collect()),
    }
}

/// The text that `serde_json` writes for a value with `Display`: its compact
/// JSON.
pub uninterp spec fn texto_serde(j: Json) -> Seq<char>;

/// Calls `Display` of `serde_json::Value` on the value turned back into
/// `serde_json`'s own. The contract names the result only: it depends on the
/// value alone, and writing it out is `serde_json`'s serializer.
#[verifier::external_body]
pub(crate) fn texto_compacto(j: &Json) -> (r: String)
    ensures
        r@ == texto_serde(*j),
{
    valor_serde(j).to_string()
}

/// Turns a `serde_json` value into the library's, member for member: each
/// variant becomes the one of the same name, a number keeps what `as_u64`,
/// `as_i64` and `Display` give of it, and an object keeps the members in the
/// order `serde_json` walks them. Nothing is stated of the result here; it
/// only feeds `leer_json`.
#[verifier::external_body]
fn json_de_valor(v: &serde_json::Value) -> Json {
    match v {
        serde_json::Value::Null => Json::Nulo,
        serde_json::Value::Bool(b) => Json::Booleano(*b),
        serde_json::Value::Number(n) => Json::Numero(Numero { natural: n.as_u64(), entero: n.as_i64(), texto: n.to_string() }),
        serde_json::Value::String(t) => Json::Texto(t.clone()),
        serde_json::Value::Array(a) => Json::Lista(a.iter().map(json_de_valor).collect()),
        serde_json::Value::Object(m) => Json::Objeto(m.iter().map(|(c, v)| Campo { clave: c.clone(), valor: json_de_valor(v) }).collect()),
    }
}

/// The value that `serde_json` reads from a text, as the library holds it;
/// `None` when `serde_json` refuses the text.
pub uninterp spec fn json_de(texto: Seq<char>) -> Option<Json>;

/// Calls `serde_json::from_str` for a `serde_json::Value`. The contract names
/// the result only: it depends on the text alone, and what it is for a given
/// text is `serde_json`'s parser.
#[verifier::external_body]
fn leer_json(texto: &str) -> (r: Option<Json>)
    ensures
        r == json_de(texto@),
{
    serde_json::from_str::<serde_json::Value>(texto).ok().map(|v| json_de_valor(&v))
}

/// The JSON value an engine reply holds; `None` when the reply is not JSON.
pub fn leer_respuesta(texto: &str) -> (r: Option<Json>)
    ensures
        r == json_de(texto@),
{
    leer_json(texto)
}

} // verus!
