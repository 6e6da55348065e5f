//! In-memory model of the relational store: the `pacientes` and `usuarios`
//! tables, with auto-assigned ascending identifiers and a uniqueness
//! constraint on logins. Every operation is a single statement that either
//! fully applies or fails with a store-layer error.

use vstd::prelude::*;
use crate::erros::SqlErro;
use crate::validacao::login_valido;

verus! {

/// A row of the `pacientes` table.
pub struct Paciente {
    pub id: i64,
    pub nome: String,
}

/// A row of the `usuarios` table. The command layer stores the login
/// normalized and the password hash as the credential hasher's output,
/// never the plaintext.
pub struct Usuario {
    pub id: i64,
    pub nome: String,
    pub login: String,
    pub senha_hash: String,
    pub criado_em: u64,
}

/// A user row as listed to the host: every column but the password hash.
pub struct UsuarioPublico {
    pub id: i64,
    pub nome: String,
    pub login: String,
    pub criado_em: u64,
}

/// The listed row `p` carries the public columns of the stored row `u`.
pub open spec fn publico_de(u: Usuario, p: UsuarioPublico) -> bool {
    p.id == u.id && p.nome@ == u.nome@ && p.login@ == u.login@ && p.criado_em == u.criado_em
}

/// Well-formedness of the `pacientes` table: identifiers are positive,
/// below the next free identifier and strictly ascending in insertion
/// order.
pub open spec fn tabela_pacientes_bem_formada(pacientes: Seq<Paciente>, proximo: i64) -> bool {
    &&& 1 <= proximo
    &&& forall|i: int|
        0 <= i < pacientes.len() ==> 1 <= (#[trigger] pacientes[i]).id < proximo
    &&& forall|i: int, j: int|
        0 <= i < j < pacientes.len() ==> (#[trigger] pacientes[i]).id < (
        #[trigger] pacientes[j]).id
}

/// Well-formedness of the `usuarios` table: identifiers are positive,
/// below the next free identifier and strictly ascending in insertion
/// order, and stored logins are normalized, valid and pairwise distinct.
pub open spec fn tabela_usuarios_bem_formada(usuarios: Seq<Usuario>, proximo: i64) -> bool {
    &&& 1 <= proximo
    &&& forall|i: int| 0 <= i < usuarios.len() ==> 1 <= (#[trigger] usuarios[i]).id < proximo
    &&& forall|i: int, j: int|
        0 <= i < j < usuarios.len() ==> (#[trigger] usuarios[i]).id < (#[trigger] usuarios[j]).id
    &&& forall|i: int, j: int|
        0 <= i < j < usuarios.len() ==> (#[trigger] usuarios[i]).login@ != (
        #[trigger] usuarios[j]).login@
    &&& forall|i: int| 0 <= i < usuarios.len() ==> login_valido((#[trigger] usuarios[i]).login@)
}

/// Row `i` of `nov` is row `i` of `ant` — the row carrying `id` — with its
/// name and login replaced and its password hash replaced when a new one
/// is given; every other row is unchanged.
pub open spec fn atualizacao_no_indice(
    ant: Seq<Usuario>,
    nov: Seq<Usuario>,
    id: i64,
    nome: Seq<char>,
    login: Seq<char>,
    novo_hash: Option<String>,
    i: int,
) -> bool {
    &&& 0 <= i < ant.len()
    &&& ant[i].id == id
    &&& nov.len() == ant.len()
    &&& nov[i].id == id
    &&& nov[i].nome@ == nome
    &&& nov[i].login@ == login
    &&& nov[i].criado_em == ant[i].criado_em
    &&& nov[i].senha_hash@ == (match novo_hash {
        Option::None => ant[i].senha_hash@,
        Option::Some(h) => h@,
    })
    &&& forall|k: int| 0 <= k < ant.len() && k != i ==> nov[k] == ant[k]
}

/// The two tables and the next identifier that each will assign.
pub struct Banco {
    pacientes: Vec<Paciente>,
    usuarios: Vec<Usuario>,
    proximo_id_paciente: i64,
    proximo_id_usuario: i64,
}

impl Banco {
    /// The rows of the `usuarios` table, in insertion order.
    pub closed spec fn usuarios(self) -> Seq<Usuario> {
        self.usuarios@
    }

    /// The rows of the `pacientes` table, in insertion order.
    pub closed spec fn pacientes(self) -> Seq<Paciente> {
        self.pacientes@
    }

    /// The identifier the next inserted user row will receive.
    pub closed spec fn proximo_id_usuario(self) -> i64 {
        self.proximo_id_usuario
    }

    /// The identifier the next inserted patient row will receive.
    pub closed spec fn proximo_id_paciente(self) -> i64 {
        self.proximo_id_paciente
    }

    /// Well-formedness of the store: both tables are well-formed with
    /// respect to the next identifier each will assign.
    pub open spec fn bem_formado(self) -> bool {
        tabela_pacientes_bem_formada(self.pacientes(), self.proximo_id_paciente())
            && tabela_usuarios_bem_formada(self.usuarios(), self.proximo_id_usuario())
    }

    /// Some stored user carries exactly this login.
    pub open spec fn contem_login(self, login: Seq<char>) -> bool {
        exists|i: int|
            0 <= i < self.usuarios().len() && (#[trigger] self.usuarios()[i]).login@ == login
    }

    /// Some stored user carries this identifier.
    pub open spec fn contem_usuario_id(self, id: i64) -> bool {
        exists|i: int| 0 <= i < self.usuarios().len() && (#[trigger] self.usuarios()[i]).id == id
    }

    /// An empty store, ready to assign identifier 1 in each table.
    pub fn novo() -> (b: Banco)
        ensures
            b.bem_formado(),
            b.usuarios().len() == 0,
            b.pacientes().len() == 0,
            b.proximo_id_usuario() == 1,
            b.proximo_id_paciente() == 1,
    {
        Banco {
            pacientes: Vec::new(),
            usuarios: Vec::new(),
            proximo_id_paciente: 1,
            proximo_id_usuario: 1,
        }
    }

    /// How many user rows are stored.
    pub fn quantidade_usuarios(&self) -> (r: usize)
        ensures
            r == self.usuarios().len(),
    {
        self.usuarios.len()
    }

    /// How many patient rows are stored.
    pub fn quantidade_pacientes(&self) -> (r: usize)
        ensures
            r == self.pacientes().len(),
    {
        self.pacientes.len()
    }

    fn indice_usuario_por_id(&self, id: i64) -> (r: Option<usize>)
        ensures
            match r {
                Option::Some(i) => 0 <= i < self.usuarios().len() && self.usuarios()[i as int].id
                    == id,
                Option::None => !self.contem_usuario_id(id),
            },
    {
        let n = self.usuarios.len();
        let mut i: usize = 0;
        while i < n
            invariant
                0 <= i <= n,
                n == self.usuarios().len(),
                forall|k: int| 0 <= k < i ==> (#[trigger] self.usuarios()[k]).id != id,
            decreases n - i,
        {
            if self.usuarios[i].id == id {
                return Option::Some(i);
            }
            i = i + 1;
        }
        Option::None
    }

    fn indice_usuario_por_login(&self, login: &String) -> (r: Option<usize>)
        ensures
            match r {
                Option::Some(i) => 0 <= i < self.usuarios().len()
                    && self.usuarios()[i as int].login@ == login@,
                Option::None => !self.contem_login(login@),
            },
    {
        let n = self.usuarios.len();
        let mut i: usize = 0;
        while i < n
            invariant
                0 <= i <= n,
                n == self.usuarios().len(),
                forall|k: int| 0 <= k < i ==> (#[trigger] self.usuarios()[k]).login@ != login@,
            decreases n - i,
        {
            if self.usuarios[i].login.eq(login) {
                return Option::Some(i);
            }
            i = i + 1;
        }
        Option::None
    }

    /// The stored password hash of the user with this identifier, if any.
    pub fn senha_hash_de(&self, id: i64) -> (r: Option<String>)
        ensures
            match r {
                Option::Some(h) => exists|i: int|
                    0 <= i < self.usuarios().len() && (#[trigger] self.usuarios()[i]).id == id
                        && h@ == self.usuarios()[i].senha_hash@,
                Option::None => !self.contem_usuario_id(id),
            },
    {
        match self.indice_usuario_por_id(id) {
            Option::Some(i) => Option::Some(self.usuarios[i].senha_hash.clone()),
            Option::None => Option::None,
        }
    }

    /// The stored display name of the patient with this identifier, if any.
    pub fn nome_do_paciente(&self, id: i64) -> (r: Option<String>)
        ensures
            match r {
                Option::Some(nome) => exists|i: int|
                    0 <= i < self.pacientes().len() && (#[trigger] self.pacientes()[i]).id == id
                        && nome@ == self.pacientes()[i].nome@,
                Option::None => forall|i: int|
                    0 <= i < self.pacientes().len() ==> (#[trigger] self.pacientes()[i]).id != id,
            },
    {
        let n = self.pacientes.len();
        let mut i: usize = 0;
        while i < n
            invariant
                0 <= i <= n,
                n == self.pacientes().len(),
                forall|k: int| 0 <= k < i ==> (#[trigger] self.pacientes()[k]).id != id,
            decreases n - i,
        {
            if self.pacientes[i].id == id {
                return Option::Some(self.pacientes[i].nome.clone());
            }
            i = i + 1;
        }
        Option::None
    }

    /// Inserts one patient row. The store assigns the next free identifier;
    /// when identifiers are exhausted the statement fails like any other
    /// store failure.
    pub fn inserir_paciente(&mut self, nome: String) -> (r: Result<i64, SqlErro>)
        requires
            old(self).bem_formado(),
        ensures
            final(self).bem_formado(),
            final(self).usuarios() == old(self).usuarios(),
            final(self).proximo_id_usuario() == old(self).proximo_id_usuario(),
            old(self).proximo_id_paciente() == i64::MAX ==> r == Err::<i64, SqlErro>(
                SqlErro::Outro,
            ) && *final(self) == *old(self),
            old(self).proximo_id_paciente() < i64::MAX ==> {
                &&& r == Ok::<i64, SqlErro>(old(self).proximo_id_paciente())
                &&& final(self).pacientes().len() == old(self).pacientes().len() + 1
                &&& forall|k: int|
                    0 <= k < old(self).pacientes().len() ==> final(self).pacientes()[k] == old(
                        self,
                    ).pacientes()[k]
                &&& final(self).pacientes().last().id == old(self).proximo_id_paciente()
                &&& final(self).pacientes().last().nome@ == nome@
                &&& final(self).proximo_id_paciente() == old(self).proximo_id_paciente() + 1
            },
    {
        if self.proximo_id_paciente == i64::MAX {
            return Err(SqlErro::Outro);
        }
        let id = self.proximo_id_paciente;
        self.pacientes.push(Paciente { id, nome });
        self.proximo_id_paciente = self.proximo_id_paciente + 1;
        proof {
            let ant = old(self).pacientes();
            let novos = self.pacientes();
            assert forall|i: int| 0 <= i < novos.len() implies 1 <= (#[trigger] novos[i]).id
                < self.proximo_id_paciente() by {
                if i < ant.len() {
                    assert(novos[i] == ant[i]);
                }
            }
            assert forall|i: int, j: int| 0 <= i < j < novos.len() implies (#[trigger] novos[i]).id
                < (#[trigger] novos[j]).id by {
                if j == ant.len() {
                    assert(novos[i] == ant[i]);
                } else {
                    assert(novos[i] == ant[i] && novos[j] == ant[j]);
                }
            }
        }
        Ok(id)
    }

    /// Inserts one user row under the next free identifier, unless the
    /// login is already taken, which violates the uniqueness constraint.
    pub fn inserir_usuario(
        &mut self,
        nome: String,
        login: String,
        senha_hash: String,
        criado_em: u64,
    ) -> (r: Result<i64, SqlErro>)
        requires
            old(self).bem_formado(),
            login_valido(login@),
        ensures
            final(self).bem_formado(),
            final(self).pacientes() == old(self).pacientes(),
            final(self).proximo_id_paciente() == old(self).proximo_id_paciente(),
            old(self).contem_login(login@) ==> r == Err::<i64, SqlErro>(
                (SqlErro::BancoDados { violacao_unicidade: true }),
            ) && *final(self) == *old(self),
            !old(self).contem_login(login@) && old(self).proximo_id_usuario() == i64::MAX ==> r
                == Err::<i64, SqlErro>(SqlErro::Outro) && *final(self) == *old(self),
            !old(self).contem_login(login@) && old(self).proximo_id_usuario() < i64::MAX ==> {
                &&& r == Ok::<i64, SqlErro>(old(self).proximo_id_usuario())
                &&& final(self).usuarios().len() == old(self).usuarios().len() + 1
                &&& forall|k: int|
                    0 <= k < old(self).usuarios().len() ==> final(self).usuarios()[k] == old(
                        self,
                    ).usuarios()[k]
                &&& final(self).usuarios().last().id == old(self).proximo_id_usuario()
                &&& final(self).usuarios().last().nome@ == nome@
                &&& final(self).usuarios().last().login@ == login@
                &&& final(self).usuarios().last().senha_hash@ == senha_hash@
                &&& final(self).usuarios().last().criado_em == criado_em
                &&& final(self).proximo_id_usuario() == old(self).proximo_id_usuario() + 1
            },
    {
        match self.indice_usuario_por_login(&login) {
            Option::Some(_) => Err(SqlErro::BancoDados { violacao_unicidade: true }),
            Option::None => {
                if self.proximo_id_usuario == i64::MAX {
                    return Err(SqlErro::Outro);
                }
                let id = self.proximo_id_usuario;
                self.usuarios.push(Usuario { id, nome, login, senha_hash, criado_em });
                self.proximo_id_usuario = self.proximo_id_usuario + 1;
                proof {
                    let ant = old(self).usuarios();
                    let novos = self.usuarios();
                    assert forall|i: int| 0 <= i < novos.len() implies 1 <= (
                    #[trigger] novos[i]).id < self.proximo_id_usuario() && login_valido(
                        novos[i].login@,
                    ) by {
                        if i < ant.len() {
                            assert(novos[i] == ant[i]);
                        }
                    }
                    assert forall|i: int, j: int| 0 <= i < j < novos.len() implies (
                    #[trigger] novos[i]).id < (#[trigger] novos[j]).id by {
                        if j == ant.len() {
                            assert(novos[i] == ant[i]);
                        } else {
                            assert(novos[i] == ant[i] && novos[j] == ant[j]);
                        }
                    }
                    assert forall|i: int, j: int| 0 <= i < j < novos.len() implies (
                    #[trigger] novos[i]).login@ != (#[trigger] novos[j]).login@ by {
                        if j == ant.len() {
                            assert(novos[i] == ant[i]);
                        } else {
                            assert(novos[i] == ant[i] && novos[j] == ant[j]);
                        }
                    }
                }
                Ok(id)
            },
        }
    }

    /// Updates the name and login of the user with this identifier, and its
    /// password hash when a new one is given. Reports how many rows were
    /// affected: zero when no row carries the identifier. Moving the login
    /// onto one already taken by another row violates the uniqueness
    /// constraint.
    pub fn atualizar_armazenado(
        &mut self,
        id: i64,
        nome: String,
        login: String,
        novo_hash: Option<String>,
    ) -> (r: Result<u64, SqlErro>)
        requires
            old(self).bem_formado(),
            login_valido(login@),
        ensures
            final(self).bem_formado(),
            final(self).pacientes() == old(self).pacientes(),
            final(self).proximo_id_paciente() == old(self).proximo_id_paciente(),
            final(self).proximo_id_usuario() == old(self).proximo_id_usuario(),
            !old(self).contem_usuario_id(id) ==> r == Ok::<u64, SqlErro>(0) && *final(self)
                == *old(self),
            old(self).contem_usuario_id(id) && (exists|k: int|
                0 <= k < old(self).usuarios().len() && (#[trigger] old(self).usuarios()[k]).login@
                    == login@ && old(self).usuarios()[k].id != id) ==> r == Err::<u64, SqlErro>(
                (SqlErro::BancoDados { violacao_unicidade: true }),
            ) && *final(self) == *old(self),
            old(self).contem_usuario_id(id) && !(exists|k: int|
                0 <= k < old(self).usuarios().len() && (#[trigger] old(self).usuarios()[k]).login@
                    == login@ && old(self).usuarios()[k].id != id) ==> {
                &&& r == Ok::<u64, SqlErro>(1)
                &&& final(self).usuarios().len() == old(self).usuarios().len()
                &&& exists|i: int|
                    #[trigger] atualizacao_no_indice(
                        old(self).usuarios(),
                        final(self).usuarios(),
                        id,
                        nome@,
                        login@,
                        novo_hash,
                        i,
                    )
            },
    {
        let indice = match self.indice_usuario_por_id(id) {
            Option::None => {
                return Ok(0);
            },
            Option::Some(i) => i,
        };
        match self.indice_usuario_por_login(&login) {
            Option::Some(k) if k != indice => {
                return Err(SqlErro::BancoDados { violacao_unicidade: true });
            },
            _ => {},
        }
        let criado_em = self.usuarios[indice].criado_em;
        let senha_hash = match novo_hash {
            Option::None => self.usuarios[indice].senha_hash.clone(),
            Option::Some(h) => h,
        };
        let nova = Usuario { id, nome, login, senha_hash, criado_em };
        self.usuarios[indice] = nova;
        proof {
            let ant = old(self).usuarios();
            let novos = self.usuarios();
            assert forall|i: int| 0 <= i < novos.len() implies 1 <= (#[trigger] novos[i]).id
                < self.proximo_id_usuario() && login_valido(novos[i].login@) by {
                if i != indice {
                    assert(novos[i] == ant[i]);
                }
            }
            assert forall|i: int, j: int| 0 <= i < j < novos.len() implies (#[trigger] novos[i]).id
                < (#[trigger] novos[j]).id by {
                assert(novos[i].id == ant[i].id && novos[j].id == ant[j].id);
            }
            assert forall|i: int, j: int| 0 <= i < j < novos.len() implies (
            #[trigger] novos[i]).login@ != (#[trigger] novos[j]).login@ by {
                if i != indice && j != indice {
                    assert(novos[i] == ant[i] && novos[j] == ant[j]);
                } else if i == indice {
                    assert(novos[j] == ant[j]);
                    assert(ant[j].id != id);
                } else {
                    assert(novos[i] == ant[i]);
                    assert(ant[i].id != id);
                }
            }
            assert(atualizacao_no_indice(ant, novos, id, nome@, login@, novo_hash, indice as int));
        }
        Ok(1)
    }

    /// Deletes the user row with this identifier, reporting how many rows
    /// were affected: zero when no row carries the identifier.
    pub fn remover_armazenado(&mut self, id: i64) -> (r: u64)
        requires
            old(self).bem_formado(),
        ensures
            final(self).bem_formado(),
            final(self).pacientes() == old(self).pacientes(),
            final(self).proximo_id_paciente() == old(self).proximo_id_paciente(),
            final(self).proximo_id_usuario() == old(self).proximo_id_usuario(),
            !old(self).contem_usuario_id(id) ==> r == 0 && *final(self) == *old(self),
            old(self).contem_usuario_id(id) ==> r == 1 && exists|i: int|
                {
                    &&& 0 <= i < old(self).usuarios().len()
                    &&& (#[trigger] old(self).usuarios()[i]).id == id
                    &&& final(self).usuarios() =~= old(self).usuarios().remove(i)
                },
    {
        let indice = match self.indice_usuario_por_id(id) {
            Option::None => {
                return 0;
            },
            Option::Some(i) => i,
        };
        self.usuarios.remove(indice);
        proof {
            let ant = old(self).usuarios();
            let novos = self.usuarios();
            assert(novos =~= ant.remove(indice as int));
            assert forall|i: int, j: int| 0 <= i < j < novos.len() implies (#[trigger] novos[i]).id
                < (#[trigger] novos[j]).id by {
                let ia: int = if i < indice { i } else { i + 1 };
                let ja: int = if j < indice { j } else { j + 1 };
                assert(novos[i] == ant[ia] && novos[j] == ant[ja]);
            }
            assert forall|i: int, j: int| 0 <= i < j < novos.len() implies (
            #[trigger] novos[i]).login@ != (#[trigger] novos[j]).login@ by {
                let ia: int = if i < indice { i } else { i + 1 };
                let ja: int = if j < indice { j } else { j + 1 };
                assert(novos[i] == ant[ia] && novos[j] == ant[ja]);
            }
            assert forall|i: int| 0 <= i < novos.len() implies 1 <= (#[trigger] novos[i]).id
                < self.proximo_id_usuario() && login_valido(novos[i].login@) by {
                let ia: int = if i < indice { i } else { i + 1 };
                assert(novos[i] == ant[ia]);
            }
        }
        1
    }

    /// Lists every user row, newest first: ordered by identifier
    /// descending, without the password hash column.
    pub fn listar(&self) -> (r: Vec<UsuarioPublico>)
        requires
            self.bem_formado(),
        ensures
            r@.len() == self.usuarios().len(),
            forall|i: int|
                0 <= i < r@.len() ==> publico_de(
                    self.usuarios()[self.usuarios().len() - 1 - i],
                    #[trigger] r@[i],
                ),
            forall|i: int, j: int|
                0 <= i < j < r@.len() ==> (#[trigger] r@[i]).id > (#[trigger] r@[j]).id,
    {
        let n = self.usuarios.len();
        let mut r: Vec<UsuarioPublico> = Vec::new();
        let mut k: usize = 0;
        while k < n
            invariant
                0 <= k <= n,
                n == self.usuarios().len(),
                self.bem_formado(),
                r@.len() == k,
                forall|i: int|
                    0 <= i < k ==> publico_de(self.usuarios()[n - 1 - i], #[trigger] r@[i]),
            decreases n - k,
        {
            let linha = &self.usuarios[n - 1 - k];
            r.push(
                UsuarioPublico {
                    id: linha.id,
                    nome: linha.nome.clone(),
                    login: linha.login.clone(),
                    criado_em: linha.criado_em,
                },
            );
            k = k + 1;
        }
        proof {
            assert forall|i: int, j: int| 0 <= i < j < r@.len() implies (#[trigger] r@[i]).id > (
            #[trigger] r@[j]).id by {
                let n = self.usuarios().len();
                assert(publico_de(self.usuarios()[n - 1 - i], r@[i]));
                assert(publico_de(self.usuarios()[n - 1 - j], r@[j]));
                assert(self.usuarios()[n - 1 - j].id < self.usuarios()[n - 1 - i].id);
            }
        }
        r
    }
}

} // verus!
