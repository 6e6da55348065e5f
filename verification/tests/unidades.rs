use upa_cadastro::credenciais::gerar_hash_senha;
use upa_cadastro::default_db_url;
use upa_cadastro::erros::{mapear_erro_sql, AppError, SqlErro};
use upa_cadastro::texto::{aparar_texto, minusculas_texto};

#[test]
fn url_padrao_do_banco() {
    assert_eq!(default_db_url(), "sqlite://./src-tauri/data/upa.db");
}

#[test]
fn aparar_remove_so_as_bordas() {
    assert_eq!(aparar_texto("  Ana Maria\t"), "Ana Maria");
    assert_eq!(aparar_texto("Ana"), "Ana");
    assert_eq!(aparar_texto("   "), "");
    assert_eq!(aparar_texto(""), "");
}

#[test]
fn minusculas_so_sobre_ascii() {
    assert_eq!(minusculas_texto("Ana-Maria_1"), "ana-maria_1");
    assert_eq!(minusculas_texto("abc"), "abc");
    assert_eq!(minusculas_texto("ABC.DEF"), "abc.def");
}

#[test]
fn mapeamento_de_erros_do_banco() {
    assert_eq!(
        mapear_erro_sql(SqlErro::LinhaNaoEncontrada),
        AppError::NaoEncontrado
    );
    assert_eq!(
        mapear_erro_sql(SqlErro::BancoDados {
            violacao_unicidade: true
        }),
        AppError::Conflito
    );
    assert_eq!(
        mapear_erro_sql(SqlErro::BancoDados {
            violacao_unicidade: false
        }),
        AppError::Persistencia
    );
    assert_eq!(mapear_erro_sql(SqlErro::Outro), AppError::Persistencia);
}

#[test]
fn rotulos_dos_erros() {
    assert_eq!(AppError::Validacao.mensagem(), "Dados inválidos");
    assert_eq!(AppError::NaoEncontrado.mensagem(), "Recurso não encontrado");
    assert_eq!(AppError::Conflito.mensagem(), "Conflito de dados");
    assert_eq!(
        AppError::Persistencia.mensagem(),
        "Falha ao salvar o registro"
    );
    assert_eq!(
        AppError::Credenciais.mensagem(),
        "Falha ao processar credenciais"
    );
}

#[test]
fn hash_nunca_devolve_o_texto_puro() {
    let hash = gerar_hash_senha("segredo123").expect("deveria suceder");
    assert_ne!(hash, "segredo123");
    assert!(hash.len() > 64);
    assert!(hash.starts_with("$argon2"));
}

#[test]
fn hashes_diferem_entre_chamadas_iguais() {
    let primeiro = gerar_hash_senha("segredo123").expect("deveria suceder");
    let segundo = gerar_hash_senha("segredo123").expect("deveria suceder");
    assert_ne!(primeiro, segundo);
}
