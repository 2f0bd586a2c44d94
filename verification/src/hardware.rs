//! The hardware and storage facts as people read them.

use vstd::prelude::*;
use crate::cadena::{a_minusculas, copiar, iguales, minusculas, recortado, recortar, unidos, unir_con, vistas};
use crate::json::{Json, apuntar, texto_compacto, texto_serde, valor_de};
use crate::aplicaciones::{textos_de, textos_lista};

verus! {

/// What the interface shows for the value at a JSON pointer: a dash when
/// there is nothing, the text itself, `true`/`false`, the number as written,
/// the texts of an array joined by commas, or the compact JSON that
/// `serde_json` writes for an object.
pub open spec fn valor_spec(datos: Json, puntero: Seq<char>) -> Seq<char> {
    match apuntar(datos, puntero) {
        None => "—"@,
        Some(Json::Nulo) => "—"@,
        Some(Json::Texto(t)) => if t@.len() == 0 {
            "—"@
        } else {
            t@
        },
        Some(Json::Booleano(b)) => if b {
            "true"@
        } else {
            "false"@
        },
        Some(Json::Numero(n)) => n.texto@,
        Some(Json::Lista(v)) => unidos(textos_de(v@), ", "@),
        Some(Json::Objeto(c)) => texto_serde(Json::Objeto(c)),
    }
}

pub fn valor(datos: &Json, puntero: &str) -> (r: String)
    ensures
        r@ == valor_spec(*datos, puntero@),
{
    let v = match datos.apuntar(puntero) {
        Some(v) => v,
        None => return copiar("—"),
    };
    match v {
        Json::Nulo => copiar("—"),
        Json::Texto(t) => if t.as_str().unicode_len() == 0 {
            copiar("—")
        } else {
            copiar(t.as_str())
        },
        Json::Booleano(b) => if *b {
            copiar("true")
        } else {
            copiar("false")
        },
        Json::Numero(n) => copiar(n.texto.as_str()),
        Json::Lista(l) => {
            let textos = textos_lista(l);
            unir_con(&textos, ", ")
        },
        Json::Objeto(_) => texto_compacto(v),
    }
}

/// Short names of the manufacturers that firmware reports at length.
pub open spec fn fabricante_spec(valor: Seq<char>) -> Seq<char> {
    let v = recortado(valor);
    if v == "Gigabyte Technology Co., Ltd."@ {
        "Gigabyte"@
    } else if v == "Micro-Star International Co., Ltd."@ {
        "MSI"@
    } else if v == "ASUSTeK COMPUTER INC."@ {
        "ASUS"@
    } else if v == "LENOVO"@ {
        "Lenovo"@
    } else {
        v
    }
}

pub fn fabricante_humano(valor: &str) -> (r: String)
    ensures
        r@ == fabricante_spec(valor@),
{
    let v = recortar(valor);
    if iguales(v, "Gigabyte Technology Co., Ltd.") {
        copiar("Gigabyte")
    } else if iguales(v, "Micro-Star International Co., Ltd.") {
        copiar("MSI")
    } else if iguales(v, "ASUSTeK COMPUTER INC.") {
        copiar("ASUS")
    } else if iguales(v, "LENOVO") {
        copiar("Lenovo")
    } else {
        copiar(v)
    }
}

pub open spec fn parte_util(p: Seq<char>) -> bool {
    p.len() > 0 && p != "—"@
}

/// The machine's model: manufacturer and model without empty parts, dashes
/// or repetition; a dash when nothing is left.
pub open spec fn modelo_spec(vendor: Seq<char>, model: Seq<char>) -> Seq<char> {
    let f = fabricante_spec(vendor);
    let m = recortado(model);
    let p1: Seq<Seq<char>> = if parte_util(f) { seq![f] } else { Seq::empty() };
    let p2: Seq<Seq<char>> = if parte_util(m) && !(p1.len() == 1 && p1[0] == m) { p1.push(m) } else { p1 };
    if p2.len() == 0 {
        "—"@
    } else {
        unidos(p2, " "@)
    }
}

fn parte_util_exec(p: &str) -> (r: bool)
    ensures
        r == parte_util(p@),
{
    p.unicode_len() > 0 && !iguales(p, "—")
}

pub fn modelo_humano(vendor: &str, model: &str) -> (r: String)
    ensures
        r@ == modelo_spec(vendor@, model@),
{
    let fabricante = fabricante_humano(vendor);
    let m = recortar(model);
    let mut partes: Vec<String> = Vec::new();
    let f_util = parte_util_exec(fabricante.as_str());
    if f_util {
        partes.push(copiar(fabricante.as_str()));
    }
    let ghost p1 = vistas(partes@);
    assert(p1 =~= (if parte_util(fabricante@) { seq![fabricante@] } else { Seq::<Seq<char>>::empty() }));
    let repetida = f_util && iguales(fabricante.as_str(), m);
    if parte_util_exec(m) && !repetida {
        partes.push(copiar(m));
        assert(vistas(partes@) =~= p1.push(m@));
    }
    if partes.len() == 0 {
        copiar("—")
    } else {
        unir_con(&partes, " ")
    }
}

/// How the boot firmware is named.
pub open spec fn firmware_spec(valor: Seq<char>) -> Seq<char> {
    let v = minusculas(valor);
    if v == "uefi"@ {
        "UEFI"@
    } else if v == "bios"@ || v == "legacy"@ {
        "BIOS"@
    } else {
        valor
    }
}

pub fn firmware_humano(valor: &str) -> (r: String)
    ensures
        r@ == firmware_spec(valor@),
{
    let v = a_minusculas(valor);
    if iguales(v.as_str(), "uefi") {
        copiar("UEFI")
    } else if iguales(v.as_str(), "bios") || iguales(v.as_str(), "legacy") {
        copiar("BIOS")
    } else {
        copiar(valor)
    }
}

pub open spec fn sufijo_tamano(c: char) -> bool {
    c == 'K' || c == 'M' || c == 'G' || c == 'T' || c == 'P'
}

pub open spec fn cifra_tamano(c: char) -> bool {
    ('0' <= c && c <= '9') || c == ',' || c == '.'
}

/// A size such as `512G` read as `512 GB`; anything else unchanged (trimmed).
pub open spec fn tamano_spec(valor: Seq<char>) -> Seq<char> {
    let v = recortado(valor);
    if v.len() >= 2 && sufijo_tamano(v.last()) && forall|i: int| 0 <= i < v.len() - 1 ==> cifra_tamano(#[trigger] v[i]) {
        v.subrange(0, v.len() - 1) + seq![' ', v.last(), 'B']
    } else {
        v
    }
}

/// The trimmed text must not end in a character outside ASCII: the byte
/// split that reads the suffix would not fall on a character boundary.
pub fn tamano_almacenamiento_humano(valor: &str) -> (r: String)
    requires
        recortado(valor@).len() == 0 || (recortado(valor@).last() as u32) < 128,
    ensures
        r@ == tamano_spec(valor@),
{
    let v = recortar(valor);
    let n = v.unicode_len();
    if n >= 2 {
        let sufijo = v.get_char(n - 1);
        if sufijo == 'K' || sufijo == 'M' || sufijo == 'G' || sufijo == 'T' || sufijo == 'P' {
            let mut i: usize = 0;
            let mut todas = true;
            while i < n - 1
                invariant
                    n == v@.len(),
                    n >= 2,
                    i <= n - 1,
                    todas == forall|k: int| 0 <= k < i ==> cifra_tamano(#[trigger] v@[k]),
                decreases n - 1 - i,
            {
                let c = v.get_char(i);
                if !(('0' <= c && c <= '9') || c == ',' || c == '.') {
                    todas = false;
                }
                i = i + 1;
            }
            if todas {
                let numero = v.substring_char(0, n - 1);
                let mut r = copiar(numero);
                r.push(' ');
                r.push(sufijo);
                r.push('B');
                assert(r@ =~= v@.subrange(0, n - 1) + seq![' ', v@.last(), 'B']);
                return r;
            }
        }
    }
    copiar(v)
}

} // verus!
