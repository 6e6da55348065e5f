//! The closed error taxonomy of the command layer, and the total mapping
//! from store-layer failures into it.

use vstd::prelude::*;

verus! {

/// Domain error kinds surfaced to the host. Each carries a fixed
/// human-readable label; no internal detail ever crosses the boundary.
#[derive(Clone, Copy, Debug, PartialEq, Eq, Structural)]
pub enum AppError {
    /// Input did not satisfy the declared constraints.
    Validacao,
    /// A row was not found, or an update/delete affected zero rows.
    NaoEncontrado,
    /// A uniqueness constraint was violated (e.g. a duplicate login).
    Conflito,
    /// Any other store failure.
    Persistencia,
    /// The credential hashing primitive failed.
    Credenciais,
}

impl AppError {
    /// The fixed label of this error kind, as shown to the host.
    pub fn mensagem(&self) -> (r: String)
        ensures
            *self == AppError::Validacao ==> r@ == "Dados inválidos"@,
            *self == AppError::NaoEncontrado ==> r@ == "Recurso não encontrado"@,
            *self == AppError::Conflito ==> r@ == "Conflito de dados"@,
            *self == AppError::Persistencia ==> r@ == "Falha ao salvar o registro"@,
            *self == AppError::Credenciais ==> r@ == "Falha ao processar credenciais"@,
    {
        match self {
            AppError::Validacao => String::from_str("Dados inválidos"),
            AppError::NaoEncontrado => String::from_str("Recurso não encontrado"),
            AppError::Conflito => String::from_str("Conflito de dados"),
            AppError::Persistencia => String::from_str("Falha ao salvar o registro"),
            AppError::Credenciais => String::from_str("Falha ao processar credenciais"),
        }
    }
}

/// A store-layer failure, as the statements report it: either no row was
/// found, or the database engine rejected the statement (possibly because
/// of a uniqueness constraint), or something else went wrong.
#[derive(Clone, Copy, Debug, PartialEq, Eq, Structural)]
pub enum SqlErro {
    LinhaNaoEncontrada,
    BancoDados { violacao_unicidade: bool },
    Outro,
}

/// The domain kind that a store failure maps to.
pub open spec fn erro_sql_mapeado(erro: SqlErro) -> AppError {
    match erro {
        SqlErro::LinhaNaoEncontrada => AppError::NaoEncontrado,
        SqlErro::BancoDados { violacao_unicidade } => if violacao_unicidade {
            AppError::Conflito
        } else {
            AppError::Persistencia
        },
        SqlErro::Outro => AppError::Persistencia,
    }
}

/// Total mapping from store failures to domain error kinds: row-not-found
/// becomes not-found, a uniqueness violation becomes conflict, and every
/// other failure becomes a persistence failure.
pub fn mapear_erro_sql(erro: SqlErro) -> (r: AppError)
    ensures
        r == erro_sql_mapeado(erro),
{
    match erro {
        SqlErro::LinhaNaoEncontrada => AppError::NaoEncontrado,
        SqlErro::BancoDados { violacao_unicidade } => {
            if violacao_unicidade {
                return AppError::Conflito;
            }
            AppError::Persistencia
        },
        SqlErro::Outro => AppError::Persistencia,
    }
}

} // verus!
