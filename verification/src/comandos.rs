//! Command handlers, one per use case: each normalizes and validates its
//! input, optionally derives a credential hash, issues one statement
//! against the store, maps store failures into the domain taxonomy and
//! returns a payload with a fixed message and the affected identifier.

use vstd::prelude::*;
use crate::banco::{Banco, UsuarioPublico, publico_de};
use crate::credenciais::{gerar_hash_senha, hash_argon2_de};
use crate::erros::{mapear_erro_sql, AppError};
use crate::texto::{aparar, aparar_texto, minusculas, minusculas_texto};
use crate::validacao::{
    login_valido,
    nome_valido,
    senha_valida,
    AtualizarUsuarioInput,
    NovoPacienteInput,
    NovoUsuarioInput,
    RemoverUsuarioInput,
};

verus! {

/// Success payload of a command: a fixed human-readable message and the
/// identifier of the affected row.
#[derive(Debug)]
pub struct ComandoOk {
    pub mensagem: String,
    pub id: i64,
}

/// A login as the handlers normalize it: trimmed, then lowercased.
pub open spec fn normalizar_login(login: Seq<char>) -> Seq<char> {
    minusculas(aparar(login))
}

/// The password-change request that an update carries once normalized:
/// a missing or whitespace-only field means that no change was requested.
pub open spec fn senha_efetiva(senha: Option<String>) -> Option<Seq<char>> {
    match senha {
        Option::None => Option::None,
        Option::Some(s) => if aparar(s@).len() == 0 {
            Option::None
        } else {
            Option::Some(aparar(s@))
        },
    }
}

/// The raw parameters of a patient creation satisfy the declared
/// constraints after normalization.
pub open spec fn entrada_paciente_valida(nome: Seq<char>) -> bool {
    nome_valido(aparar(nome))
}

/// The raw parameters of a user creation satisfy the declared constraints
/// after normalization.
pub open spec fn entrada_usuario_valida(nome: Seq<char>, login: Seq<char>, senha: Seq<char>) -> bool {
    nome_valido(aparar(nome)) && login_valido(normalizar_login(login)) && senha_valida(senha)
}

/// The raw parameters of a user update satisfy the declared constraints
/// after normalization.
pub open spec fn entrada_atualizacao_valida(
    id: i64,
    nome: Seq<char>,
    login: Seq<char>,
    senha: Option<String>,
) -> bool {
    &&& id >= 1
    &&& nome_valido(aparar(nome))
    &&& login_valido(normalizar_login(login))
    &&& match senha_efetiva(senha) {
        Option::None => true,
        Option::Some(s) => senha_valida(s),
    }
}

/// What a successful user creation did: the input was valid, the login was
/// free, the new row was appended under the next free identifier with the
/// normalized name and login and a hasher-derived password hash — never
/// the plaintext — and the payload reports that identifier.
pub open spec fn cadastro_usuario_ok(
    antes: Banco,
    depois: Banco,
    nome: Seq<char>,
    login: Seq<char>,
    senha: Seq<char>,
    ok: ComandoOk,
) -> bool {
    &&& entrada_usuario_valida(nome, login, senha)
    &&& !antes.contem_login(normalizar_login(login))
    &&& ok.id == antes.proximo_id_usuario()
    &&& ok.id >= 1
    &&& ok.mensagem@ == "Usuário cadastrado com sucesso."@
    &&& depois.usuarios().len() == antes.usuarios().len() + 1
    &&& forall|k: int|
        0 <= k < antes.usuarios().len() ==> (#[trigger] depois.usuarios()[k]) == antes.usuarios()[k]
    &&& depois.usuarios().last().id == ok.id
    &&& depois.usuarios().last().nome@ == aparar(nome)
    &&& depois.usuarios().last().login@ == normalizar_login(login)
    &&& depois.usuarios().last().senha_hash@.len() > 64
    &&& depois.usuarios().last().senha_hash@ != senha
    &&& exists|sal: Seq<char>| depois.usuarios().last().senha_hash@ == hash_argon2_de(senha, sal)
    &&& depois.contem_login(normalizar_login(login))
}

/// What a successful user update did: the input was valid, the row with
/// the identifier exists, its name and login were replaced by the
/// normalized values, its creation timestamp was kept, and its password
/// hash was kept when no change was requested or replaced by a fresh
/// hasher-derived hash — never the plaintext — when one was.
pub open spec fn atualizacao_usuario_ok(
    antes: Banco,
    depois: Banco,
    id: i64,
    nome: Seq<char>,
    login: Seq<char>,
    senha: Option<String>,
    ok: ComandoOk,
) -> bool {
    &&& entrada_atualizacao_valida(id, nome, login, senha)
    &&& antes.contem_usuario_id(id)
    &&& ok.id == id
    &&& ok.mensagem@ == "Usuário atualizado com sucesso."@
    &&& depois.usuarios().len() == antes.usuarios().len()
    &&& exists|i: int| #[trigger] atualizacao_ok_no_indice(antes, depois, id, nome, login, senha, i)
}

/// Row `i` carries the updated user: the row that held `id` keeps its
/// identifier and creation timestamp, takes the normalized name and
/// login, and keeps its password hash when no change was requested or
/// takes a fresh hasher-derived hash — never the plaintext — when one
/// was; every other row is unchanged.
pub open spec fn atualizacao_ok_no_indice(
    antes: Banco,
    depois: Banco,
    id: i64,
    nome: Seq<char>,
    login: Seq<char>,
    senha: Option<String>,
    i: int,
) -> bool {
    &&& 0 <= i < antes.usuarios().len()
    &&& antes.usuarios()[i].id == id
    &&& depois.usuarios()[i].id == id
    &&& depois.usuarios()[i].nome@ == aparar(nome)
    &&& depois.usuarios()[i].login@ == normalizar_login(login)
    &&& depois.usuarios()[i].criado_em == antes.usuarios()[i].criado_em
    &&& match senha_efetiva(senha) {
        Option::None => depois.usuarios()[i].senha_hash@ == antes.usuarios()[i].senha_hash@,
        Option::Some(s) => {
            &&& depois.usuarios()[i].senha_hash@.len() > 64
            &&& depois.usuarios()[i].senha_hash@ != s
            &&& exists|sal: Seq<char>| depois.usuarios()[i].senha_hash@ == hash_argon2_de(s, sal)
        },
    }
    &&& forall|k: int|
        0 <= k < antes.usuarios().len() && k != i ==> (#[trigger] depois.usuarios()[k])
            == antes.usuarios()[k]
}

/// Relies on `std::time::SystemTime::now`: the clock reading the store
/// stamps new user rows with, converted to whole seconds since the Unix
/// epoch. The value depends on the clock, so nothing is stated of it.
#[verifier::external_body]
fn agora_epoch_segundos() -> u64 {
    match std::time::SystemTime::now().duration_since(std::time::UNIX_EPOCH) {
        Ok(d) => d.as_secs(),
        Err(_) => 0,
    }
}

/// Registers a patient: trims the name, validates it and inserts one row.
/// Validation failure performs no write; a valid name is always stored
/// trimmed, under a fresh positive identifier reported in the payload.
pub fn cadastrar_paciente(banco: &mut Banco, nome: String) -> (r: Result<ComandoOk, AppError>)
    requires
        old(banco).bem_formado(),
    ensures
        final(banco).bem_formado(),
        final(banco).usuarios() == old(banco).usuarios(),
        !entrada_paciente_valida(nome@) ==> r == Err::<ComandoOk, AppError>(AppError::Validacao)
            && *final(banco) == *old(banco),
        entrada_paciente_valida(nome@) && old(banco).proximo_id_paciente() == i64::MAX ==> r
            == Err::<ComandoOk, AppError>(AppError::Persistencia) && *final(banco) == *old(banco),
        entrada_paciente_valida(nome@) && old(banco).proximo_id_paciente() < i64::MAX ==> {
            &&& r is Ok
            &&& r->Ok_0.id == old(banco).proximo_id_paciente()
            &&& r->Ok_0.id >= 1
            &&& r->Ok_0.mensagem@ == "Paciente cadastrado com sucesso."@
            &&& final(banco).pacientes().len() == old(banco).pacientes().len() + 1
            &&& forall|k: int|
                0 <= k < old(banco).pacientes().len() ==> (#[trigger] final(banco).pacientes()[k])
                    == old(banco).pacientes()[k]
            &&& final(banco).pacientes().last().id == r->Ok_0.id
            &&& final(banco).pacientes().last().nome@ == aparar(nome@)
        },
{
    let input = NovoPacienteInput { nome: aparar_texto(nome.as_str()) };
    if !input.validar() {
        return Err(AppError::Validacao);
    }
    match banco.inserir_paciente(input.nome) {
        Ok(id) => Ok(
            ComandoOk { mensagem: String::from_str("Paciente cadastrado com sucesso."), id },
        ),
        Err(erro) => Err(mapear_erro_sql(erro)),
    }
}

/// Registers a user: trims the name, trims and lowercases the login,
/// validates all fields, derives a salted hash of the password and inserts
/// one row. Validation failure performs no write; a taken login (compared
/// case-insensitively) is a conflict; on success the stored row carries
/// the normalized fields and the derived hash, never the plaintext.
pub fn cadastrar_usuario(
    banco: &mut Banco,
    nome: String,
    login: String,
    senha: String,
) -> (r: Result<ComandoOk, AppError>)
    requires
        old(banco).bem_formado(),
    ensures
        final(banco).bem_formado(),
        final(banco).pacientes() == old(banco).pacientes(),
        !entrada_usuario_valida(nome@, login@, senha@) ==> r == Err::<ComandoOk, AppError>(
            AppError::Validacao,
        ) && *final(banco) == *old(banco),
        entrada_usuario_valida(nome@, login@, senha@) && old(banco).contem_login(
            normalizar_login(login@),
        ) ==> (r == Err::<ComandoOk, AppError>(AppError::Conflito) || r == Err::<
            ComandoOk,
            AppError,
        >(AppError::Credenciais)) && *final(banco) == *old(banco),
        r is Err ==> *final(banco) == *old(banco) && (r == Err::<ComandoOk, AppError>(
            AppError::Validacao,
        ) || r == Err::<ComandoOk, AppError>(AppError::Conflito) || r == Err::<
            ComandoOk,
            AppError,
        >(AppError::Credenciais) || r == Err::<ComandoOk, AppError>(AppError::Persistencia)),
        entrada_usuario_valida(nome@, login@, senha@) && !old(banco).contem_login(
            normalizar_login(login@),
        ) && old(banco).proximo_id_usuario() < i64::MAX && r is Err ==> r == Err::<
            ComandoOk,
            AppError,
        >(AppError::Credenciais),
        r == Err::<ComandoOk, AppError>(AppError::Validacao) <==> !entrada_usuario_valida(
            nome@,
            login@,
            senha@,
        ),
        r == Err::<ComandoOk, AppError>(AppError::Conflito) ==> old(banco).contem_login(
            normalizar_login(login@),
        ),
        r == Err::<ComandoOk, AppError>(AppError::Persistencia) ==> !old(banco).contem_login(
            normalizar_login(login@),
        ) && old(banco).proximo_id_usuario() == i64::MAX,
        r is Ok ==> cadastro_usuario_ok(
            *old(banco),
            *final(banco),
            nome@,
            login@,
            senha@,
            r->Ok_0,
        ),
{
    let login_aparado = aparar_texto(login.as_str());
    let input = NovoUsuarioInput {
        nome: aparar_texto(nome.as_str()),
        login: minusculas_texto(login_aparado.as_str()),
        senha,
    };
    if !input.validar() {
        return Err(AppError::Validacao);
    }
    let senha_hash = match gerar_hash_senha(input.senha.as_str()) {
        Ok(h) => h,
        Err(erro) => {
            return Err(erro);
        },
    };
    let agora = agora_epoch_segundos();
    proof {
        assert(senha_hash@ != input.senha@) by {
            assert(senha_hash@.len() > 64 && input.senha@.len() <= 64);
        }
    }
    match banco.inserir_usuario(input.nome, input.login, senha_hash, agora) {
        Ok(id) => {
            proof {
                let novos = banco.usuarios();
                assert(novos[novos.len() - 1].login@ == normalizar_login(login@));
                assert(banco.contem_login(normalizar_login(login@)));
            }
            Ok(ComandoOk { mensagem: String::from_str("Usuário cadastrado com sucesso."), id })
        },
        Err(erro) => Err(mapear_erro_sql(erro)),
    }
}

/// Lists every user, newest first: all rows, ordered by identifier
/// descending, without the password hash column.
pub fn listar_usuarios(banco: &Banco) -> (r: Vec<UsuarioPublico>)
    requires
        banco.bem_formado(),
    ensures
        r@.len() == banco.usuarios().len(),
        forall|i: int|
            0 <= i < r@.len() ==> publico_de(
                banco.usuarios()[banco.usuarios().len() - 1 - i],
                #[trigger] r@[i],
            ),
        forall|i: int, j: int|
            0 <= i < j < r@.len() ==> (#[trigger] r@[i]).id > (#[trigger] r@[j]).id,
{
    banco.listar()
}

/// Updates a user: trims the name, trims and lowercases the login, treats
/// a whitespace-only password as "no change requested", validates, hashes
/// the new password when one was given and updates the single matching
/// row. A missing identifier is not-found and leaves the store unchanged;
/// a login taken by another row is a conflict; when no password change was
/// requested the stored hash is kept.
#[verifier::rlimit(60)]
pub fn atualizar_usuario(
    banco: &mut Banco,
    id: i64,
    nome: String,
    login: String,
    senha: Option<String>,
) -> (r: Result<ComandoOk, AppError>)
    requires
        old(banco).bem_formado(),
    ensures
        final(banco).bem_formado(),
        final(banco).pacientes() == old(banco).pacientes(),
        r is Err ==> *final(banco) == *old(banco),
        !entrada_atualizacao_valida(id, nome@, login@, senha) ==> r == Err::<ComandoOk, AppError>(
            AppError::Validacao,
        ),
        entrada_atualizacao_valida(id, nome@, login@, senha) ==> (r is Ok || r == Err::<
            ComandoOk,
            AppError,
        >(AppError::NaoEncontrado) || r == Err::<ComandoOk, AppError>(AppError::Conflito) || r
            == Err::<ComandoOk, AppError>(AppError::Credenciais)),
        entrada_atualizacao_valida(id, nome@, login@, senha) && senha_efetiva(senha) is None
            && !old(banco).contem_usuario_id(id) ==> r == Err::<ComandoOk, AppError>(
            AppError::NaoEncontrado,
        ),
        entrada_atualizacao_valida(id, nome@, login@, senha) && !old(banco).contem_usuario_id(id)
            ==> (r == Err::<ComandoOk, AppError>(AppError::NaoEncontrado) || r == Err::<
            ComandoOk,
            AppError,
        >(AppError::Credenciais)),
        entrada_atualizacao_valida(id, nome@, login@, senha) && senha_efetiva(senha) is None
            && old(banco).contem_usuario_id(id) && (exists|k: int|
            0 <= k < old(banco).usuarios().len() && (#[trigger] old(banco).usuarios()[k]).login@
                == normalizar_login(login@) && old(banco).usuarios()[k].id != id) ==> r == Err::<
            ComandoOk,
            AppError,
        >(AppError::Conflito),
        r == Err::<ComandoOk, AppError>(AppError::Validacao) <==> !entrada_atualizacao_valida(
            id,
            nome@,
            login@,
            senha,
        ),
        r == Err::<ComandoOk, AppError>(AppError::NaoEncontrado) ==> !old(banco).contem_usuario_id(
            id,
        ),
        r == Err::<ComandoOk, AppError>(AppError::Conflito) ==> old(banco).contem_usuario_id(id)
            && (exists|k: int|
            0 <= k < old(banco).usuarios().len() && (#[trigger] old(banco).usuarios()[k]).login@
                == normalizar_login(login@) && old(banco).usuarios()[k].id != id),
        r == Err::<ComandoOk, AppError>(AppError::Credenciais) ==> senha_efetiva(senha) is Some,
        entrada_atualizacao_valida(id, nome@, login@, senha) && senha_efetiva(senha) is None
            && old(banco).contem_usuario_id(id) && !(exists|k: int|
            0 <= k < old(banco).usuarios().len() && (#[trigger] old(banco).usuarios()[k]).login@
                == normalizar_login(login@) && old(banco).usuarios()[k].id != id) ==> r is Ok,
        r is Ok ==> atualizacao_usuario_ok(
            *old(banco),
            *final(banco),
            id,
            nome@,
            login@,
            senha,
            r->Ok_0,
        ),
{
    let senha_normalizada: Option<String> = match senha {
        Option::None => Option::None,
        Option::Some(valor) => {
            let aparada = aparar_texto(valor.as_str());
            if aparada.as_str().unicode_len() == 0 {
                Option::None
            } else {
                Option::Some(aparada)
            }
        },
    };
    let login_aparado = aparar_texto(login.as_str());
    let input = AtualizarUsuarioInput {
        id,
        nome: aparar_texto(nome.as_str()),
        login: minusculas_texto(login_aparado.as_str()),
        senha: senha_normalizada,
    };
    if !input.validar() {
        return Err(AppError::Validacao);
    }
    let AtualizarUsuarioInput { id: id_valido, nome: nome_novo, login: login_novo, senha: senha_nova } =
        input;
    let novo_hash: Option<String> = match &senha_nova {
        Option::None => Option::None,
        Option::Some(s) => {
            match gerar_hash_senha(s.as_str()) {
                Ok(h) => {
                    proof {
                        assert(h@ != s@) by {
                            assert(h@.len() > 64 && s@.len() <= 64);
                        }
                    }
                    Option::Some(h)
                },
                Err(erro) => {
                    return Err(erro);
                },
            }
        },
    };
    match banco.atualizar_armazenado(id_valido, nome_novo, login_novo, novo_hash) {
        Ok(linhas_afetadas) => {
            if linhas_afetadas == 0 {
                return Err(AppError::NaoEncontrado);
            }
            let resultado = ComandoOk {
                mensagem: String::from_str("Usuário atualizado com sucesso."),
                id,
            };
            proof {
                let ant = old(banco).usuarios();
                let nov = banco.usuarios();
                let i = choose|i: int|
                    #[trigger] crate::banco::atualizacao_no_indice(
                        ant,
                        nov,
                        id,
                        nome_novo@,
                        login_novo@,
                        novo_hash,
                        i,
                    );
                assert(crate::banco::atualizacao_no_indice(
                    ant,
                    nov,
                    id,
                    nome_novo@,
                    login_novo@,
                    novo_hash,
                    i,
                ));
                if novo_hash is Some {
                    let h = novo_hash->0;
                    let s = senha_efetiva(senha)->0;
                    let sal = choose|sal: Seq<char>| h@ == hash_argon2_de(s, sal);
                    assert(nov[i].senha_hash@ == hash_argon2_de(s, sal));
                }
                assert(atualizacao_ok_no_indice(*old(banco), *banco, id, nome@, login@, senha, i));
            }
            Ok(resultado)
        },
        Err(erro) => Err(mapear_erro_sql(erro)),
    }
}

/// Removes a user: validates the identifier and deletes the single
/// matching row. A missing identifier is not-found and leaves the store
/// unchanged.
pub fn remover_usuario(banco: &mut Banco, id: i64) -> (r: Result<ComandoOk, AppError>)
    requires
        old(banco).bem_formado(),
    ensures
        final(banco).bem_formado(),
        final(banco).pacientes() == old(banco).pacientes(),
        r is Err ==> *final(banco) == *old(banco),
        id < 1 ==> r == Err::<ComandoOk, AppError>(AppError::Validacao),
        id >= 1 && !old(banco).contem_usuario_id(id) ==> r == Err::<ComandoOk, AppError>(
            AppError::NaoEncontrado,
        ),
        id >= 1 && old(banco).contem_usuario_id(id) ==> {
            &&& r is Ok
            &&& r->Ok_0.id == id
            &&& r->Ok_0.mensagem@ == "Usuário removido com sucesso."@
            &&& final(banco).usuarios().len() == old(banco).usuarios().len() - 1
            &&& exists|i: int|
                {
                    &&& 0 <= i < old(banco).usuarios().len()
                    &&& (#[trigger] old(banco).usuarios()[i]).id == id
                    &&& final(banco).usuarios() =~= old(banco).usuarios().remove(i)
                }
        },
{
    let input = RemoverUsuarioInput { id };
    if !input.validar() {
        return Err(AppError::Validacao);
    }
    let linhas_afetadas = banco.remover_armazenado(id);
    if linhas_afetadas == 0 {
        return Err(AppError::NaoEncontrado);
    }
    Ok(ComandoOk { mensagem: String::from_str("Usuário removido com sucesso."), id })
}

/// Two creations with the same login, compared case-insensitively after
/// trimming, cannot both succeed: after the first succeeds the normalized
/// login is stored, so the second, whose login normalizes to the same
/// value, finds it taken — and `cadastrar_usuario` then reports a
/// conflict and leaves the store unchanged.
pub proof fn lema_conflito_na_segunda_criacao(
    antes: Banco,
    depois: Banco,
    nome1: Seq<char>,
    login1: Seq<char>,
    senha1: Seq<char>,
    ok1: ComandoOk,
    login2: Seq<char>,
)
    requires
        cadastro_usuario_ok(antes, depois, nome1, login1, senha1, ok1),
        normalizar_login(login2) == normalizar_login(login1),
    ensures
        depois.contem_login(normalizar_login(login2)),
{
    let n = depois.usuarios().len();
    assert(depois.usuarios()[n - 1].login@ == normalizar_login(login2));
}

} // verus!
