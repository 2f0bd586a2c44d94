//! The people page: the accounts of the machine as people read them, and
//! what creating a person asks of the engine.

use vstd::prelude::*;
use crate::cadena::{copiar, recortado, recortar, unir2, unir3, vistas};
use crate::idioma::Idioma;
use crate::json::{Json, apuntar, lista_de, obtener, texto_de};
use crate::localizacion::{estado_cuenta_humano, estado_cuenta_spec};
use crate::motor::{argumentos_confirmados, confirmados_spec, sin_plan};

verus! {

pub open spec fn texto_o(t: Option<Seq<char>>, defecto: Seq<char>) -> Seq<char> {
    match t {
        Some(v) => v,
        None => defecto,
    }
}

/// An account as the page lists it: its visible name, then its account
/// name and, when the engine reports one, its status.
pub open spec fn cuenta_spec(idioma: Idioma, c: Json) -> (Seq<char>, Seq<char>) {
    let nombre = match texto_de(obtener(c, "displayName"@)) {
        Some(n) => n,
        None => texto_o(texto_de(obtener(c, "accountName"@)), "—"@),
    };
    let id = texto_o(texto_de(obtener(c, "accountName"@)), "—"@);
    let estado = texto_o(texto_de(obtener(c, "status"@)), Seq::empty());
    (nombre, if estado.len() == 0 { id } else { id + " · "@ + estado_cuenta_spec(idioma, estado) })
}


pub open spec fn cuentas_spec(idioma: Idioma, datos: Json) -> Seq<(Seq<char>, Seq<char>)> {
    let cs = match lista_de(apuntar(datos, "/accounts"@)) {
        Some(v) => v,
        None => Seq::empty(),
    };
    Seq::new(cs.len(), |i: int| cuenta_spec(idioma, cs[i]))
}

fn texto_miembro<'a>(c: &'a Json, clave: &str) -> (r: Option<&'a str>)
    ensures
        crate::motor::vista_opcional(r) == texto_de(obtener(*c, clave@)),
{
    match c.obtener(clave) {
        Some(v) => v.como_texto(),
        None => None,
    }
}

/// The accounts of the people page, from the engine's users report.
pub fn cuentas_visibles(idioma: Idioma, datos: &Json) -> (r: Vec<(String, String)>)
    ensures
        r@.map_values(|f: (String, String)| (f.0@, f.1@)) == cuentas_spec(idioma, *datos),
{
    let vacia: Vec<Json> = Vec::new();
    let cs: &Vec<Json> = match datos.apuntar("/accounts") {
        Some(v) => match v.como_lista() {
            Some(l) => l,
            None => &vacia,
        },
        None => &vacia,
    };
    let ghost todas = cuentas_spec(idioma, *datos);
    let mut r: Vec<(String, String)> = Vec::new();
    let mut i: usize = 0;
    while i < cs.len()
        invariant
            i <= cs@.len(),
            todas == cuentas_spec(idioma, *datos),
            todas.len() == cs@.len(),
            forall|k: int| 0 <= k < cs@.len() ==> #[trigger] todas[k] == cuenta_spec(idioma, cs@[k]),
            r@.map_values(|f: (String, String)| (f.0@, f.1@)) == todas.subrange(0, i as int),
        decreases cs.len() - i,
    {
        let c = &cs[i];
        let id = match texto_miembro(c, "accountName") {
            Some(t) => t,
            None => "—",
        };
        let nombre = match texto_miembro(c, "displayName") {
            Some(n) => n,
            None => id,
        };
        let estado = match texto_miembro(c, "status") {
            Some(s) => s,
            None => "",
        };
        proof {
            reveal_strlit("");
        }
        let subtitulo = if estado.unicode_len() == 0 {
            copiar(id)
        } else {
            unir3(id, " · ", estado_cuenta_humano(idioma, estado).as_str())
        };
        let ghost antes = r@.map_values(|f: (String, String)| (f.0@, f.1@));
        r.push((copiar(nombre), subtitulo));
        assert(todas[i as int] == cuenta_spec(idioma, cs@[i as int]));
        assert(r@.map_values(|f: (String, String)| (f.0@, f.1@)) =~= antes.push(cuenta_spec(idioma, cs@[i as int])));
        assert(todas.subrange(0, i + 1) =~= todas.subrange(0, i as int).push(todas[i as int]));
        i = i + 1;
    }
    assert(todas.subrange(0, todas.len() as int) =~= todas);
    r
}

/// What creating a person asks of the engine.
pub enum DecisionPersona {
    /// The password is empty.
    ContrasenaVacia,
    /// The password and its confirmation differ.
    ContrasenasDistintas,
    /// The plan to show first, the question that confirms it, the command
    /// that creates the account, and the command that sets its password
    /// with the text to give it on its standard input.
    Crear {
        plan: Vec<String>,
        pregunta: String,
        ejecucion: Vec<String>,
        contrasena: Vec<String>,
        entrada: String,
    },
}

impl DecisionPersona {
    /// The message shown when the person cannot be created yet.
    pub fn mensaje(&self) -> (r: Option<&'static str>)
        ensures
            match self {
                DecisionPersona::ContrasenaVacia => r == Some("La contraseña no puede estar vacía."),
                DecisionPersona::ContrasenasDistintas => r == Some("Las contraseñas no coinciden."),
                DecisionPersona::Crear { .. } => r is None,
            },
    {
        match self {
            DecisionPersona::ContrasenaVacia => Some("La contraseña no puede estar vacía."),
            DecisionPersona::ContrasenasDistintas => Some("Las contraseñas no coinciden."),
            DecisionPersona::Crear { .. } => None,
        }
    }
}

/// The plan that creates an account: its name and visible name trimmed,
/// the role chosen (administrator for the second option), and the avatar
/// when one is given.
pub open spec fn plan_persona_spec(cuenta: Seq<char>, nombre: Seq<char>, avatar: Seq<char>, rol: u32) -> Seq<Seq<char>> {
    seq!["users"@, "create"@, "--account"@, recortado(cuenta), "--name"@, recortado(nombre), "--role"@,
        if rol == 1 { "admin"@ } else { "standard"@ }]
        + (if recortado(avatar).len() == 0 { Seq::empty() } else { seq!["--avatar"@, recortado(avatar)] })
        + seq!["--plan"@, "--json"@]
}

proof fn lema_sin_plan_final(a: Seq<Seq<char>>)
    requires
        a.len() > 0,
        a.last() != "--plan"@,
    ensures
        sin_plan(a).len() > 0,
{
    assert(sin_plan(a) == sin_plan(a.drop_last()).push(a.last()));
}

pub fn decision_crear_persona(
    cuenta: &str,
    nombre: &str,
    secreto: &str,
    repetido: &str,
    avatar: &str,
    rol: u32,
) -> (r: DecisionPersona)
    ensures
        secreto@.len() == 0 <==> r is ContrasenaVacia,
        secreto@.len() > 0 && secreto@ != repetido@ <==> r is ContrasenasDistintas,
        r matches DecisionPersona::Crear { plan, pregunta, ejecucion, contrasena, entrada } ==> {
            &&& vistas(plan@) == plan_persona_spec(cuenta@, nombre@, avatar@, rol)
            &&& pregunta@ == "¿Crear la cuenta «"@ + recortado(cuenta@) + "» y aplicar la configuración?"@
            &&& vistas(ejecucion@) == confirmados_spec(plan_persona_spec(cuenta@, nombre@, avatar@, rol))
            &&& vistas(contrasena@) == seq!["users"@, "password-stdin"@, recortado(cuenta@), "--yes"@, "--json"@]
            &&& entrada@ == secreto@ + seq!['\n']
        },
{
    if secreto.unicode_len() == 0 {
        return DecisionPersona::ContrasenaVacia;
    }
    if !crate::cadena::iguales(secreto, repetido) {
        return DecisionPersona::ContrasenasDistintas;
    }
    let account = recortar(cuenta);
    let display = recortar(nombre);
    let ruta = recortar(avatar);
    let mut plan: Vec<String> = Vec::new();
    plan.push(copiar("users"));
    plan.push(copiar("create"));
    plan.push(copiar("--account"));
    plan.push(copiar(account));
    plan.push(copiar("--name"));
    plan.push(copiar(display));
    plan.push(copiar("--role"));
    plan.push(copiar(if rol == 1 { "admin" } else { "standard" }));
    if ruta.unicode_len() > 0 {
        plan.push(copiar("--avatar"));
        plan.push(copiar(ruta));
    }
    plan.push(copiar("--plan"));
    plan.push(copiar("--json"));
    assert(vistas(plan@) =~= plan_persona_spec(cuenta@, nombre@, avatar@, rol));
    proof {
        reveal_strlit("--json");
        reveal_strlit("--plan");
        assert("--json"@ != "--plan"@) by {
            assert("--json"@[2] != "--plan"@[2]);
        }
        lema_sin_plan_final(vistas(plan@));
    }
    let ejecucion = argumentos_confirmados(plan.as_slice());
    let pregunta = unir3("¿Crear la cuenta «", account, "» y aplicar la configuración?");
    let mut contrasena: Vec<String> = Vec::new();
    contrasena.push(copiar("users"));
    contrasena.push(copiar("password-stdin"));
    contrasena.push(copiar(account));
    contrasena.push(copiar("--yes"));
    contrasena.push(copiar("--json"));
    assert(vistas(contrasena@) =~= seq!["users"@, "password-stdin"@, recortado(cuenta@), "--yes"@, "--json"@]);
    let mut entrada = copiar(secreto);
    entrada.push('\n');
    DecisionPersona::Crear { plan, pregunta, ejecucion, contrasena, entrada }
}

} // verus!
