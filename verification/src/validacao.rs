//! Input models and their field constraints: length bounds, a numeric
//! minimum for identifiers, and the character pattern for logins.
//! Validation is pure and total; it never touches the store. The handlers
//! trim every string and lowercase logins before constructing a model.

use vstd::prelude::*;
use crate::texto::minuscula;

verus! {

/// A display name is valid when, after trimming, it has 3 to 80 characters.
pub open spec fn nome_valido(nome: Seq<char>) -> bool {
    3 <= nome.len() <= 80
}

/// Characters admitted in a normalized login: ASCII lowercase letters,
/// digits, dot, underscore and hyphen.
pub open spec fn char_de_login(c: char) -> bool {
    (97 <= c as u32 && c as u32 <= 122) || (48 <= c as u32 && c as u32 <= 57) || c == '.'
        || c == '_' || c == '-'
}

/// A normalized login is valid when it is non-empty and every character
/// matches the allowed pattern. Uppercase input is accepted by the
/// handlers because they lowercase the login first.
pub open spec fn login_valido(login: Seq<char>) -> bool {
    login.len() >= 1 && forall|i: int| 0 <= i < login.len() ==> char_de_login(login[i])
}

/// A password is valid when it has 8 to 64 characters; it carries no
/// pattern constraint.
pub open spec fn senha_valida(senha: Seq<char>) -> bool {
    8 <= senha.len() <= 64
}

/// A login normalized by lowercasing stays valid under further lowercasing,
/// and lowercasing maps every accepted character to itself.
pub proof fn lema_login_normalizado_estavel(login: Seq<char>)
    requires
        login_valido(login),
    ensures
        crate::texto::minusculas(login) =~= login,
{
    assert forall|i: int| 0 <= i < login.len() implies crate::texto::minusculas(login)[i]
        == login[i] by {
        assert(char_de_login(login[i]));
        assert(minuscula(login[i]) == login[i]);
    }
}

fn verificar_nome(nome: &String) -> (r: bool)
    ensures
        r == nome_valido(nome@),
{
    let n = nome.as_str().unicode_len();
    3 <= n && n <= 80
}

fn verificar_login(login: &String) -> (r: bool)
    ensures
        r == login_valido(login@),
{
    let n = login.as_str().unicode_len();
    if n == 0 {
        return false;
    }
    let mut i: usize = 0;
    while i < n
        invariant
            0 <= i <= n,
            n == login@.len(),
            forall|k: int| 0 <= k < i ==> char_de_login(login@[k]),
        decreases n - i,
    {
        let c = login.as_str().get_char(i);
        let u = c as u32;
        let aceito = (97 <= u && u <= 122) || (48 <= u && u <= 57) || c == '.' || c == '_'
            || c == '-';
        if !aceito {
            return false;
        }
        i = i + 1;
    }
    true
}

fn verificar_senha(senha: &String) -> (r: bool)
    ensures
        r == senha_valida(senha@),
{
    let n = senha.as_str().unicode_len();
    8 <= n && n <= 64
}

/// Parameters of a patient creation, already normalized by the handler.
pub struct NovoPacienteInput {
    pub nome: String,
}

impl NovoPacienteInput {
    /// The declared name constraint holds.
    pub open spec fn valida(self) -> bool {
        nome_valido(self.nome@)
    }

    /// Checks the name constraint of the model.
    pub fn validar(&self) -> (r: bool)
        ensures
            r == self.valida(),
    {
        verificar_nome(&self.nome)
    }
}

/// Parameters of a user creation, already normalized by the handler.
pub struct NovoUsuarioInput {
    pub nome: String,
    pub login: String,
    pub senha: String,
}

impl NovoUsuarioInput {
    /// All declared field constraints hold.
    pub open spec fn valida(self) -> bool {
        nome_valido(self.nome@) && login_valido(self.login@) && senha_valida(self.senha@)
    }

    /// Checks every field constraint of the model.
    pub fn validar(&self) -> (r: bool)
        ensures
            r == self.valida(),
    {
        verificar_nome(&self.nome) && verificar_login(&self.login) && verificar_senha(&self.senha)
    }
}

/// Parameters of a user update, already normalized by the handler. A `None`
/// password means that no password change was requested.
pub struct AtualizarUsuarioInput {
    pub id: i64,
    pub nome: String,
    pub login: String,
    pub senha: Option<String>,
}

impl AtualizarUsuarioInput {
    /// All declared field constraints hold; the password is only
    /// constrained when a change was requested.
    pub open spec fn valida(self) -> bool {
        &&& self.id >= 1
        &&& nome_valido(self.nome@)
        &&& login_valido(self.login@)
        &&& match self.senha {
            Option::None => true,
            Option::Some(s) => senha_valida(s@),
        }
    }

    /// Checks every field constraint of the model.
    pub fn validar(&self) -> (r: bool)
        ensures
            r == self.valida(),
    {
        if self.id < 1 {
            return false;
        }
        if !verificar_nome(&self.nome) || !verificar_login(&self.login) {
            return false;
        }
        match &self.senha {
            Option::None => true,
            Option::Some(s) => verificar_senha(s),
        }
    }
}

/// Parameters of a user removal.
pub struct RemoverUsuarioInput {
    pub id: i64,
}

impl RemoverUsuarioInput {
    /// The identifier is at least 1.
    pub open spec fn valida(self) -> bool {
        self.id >= 1
    }

    /// Checks the identifier constraint.
    pub fn validar(&self) -> (r: bool)
        ensures
            r == self.valida(),
    {
        self.id >= 1
    }
}

} // verus!
