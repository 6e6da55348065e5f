use upa_cadastro::banco::Banco;
use upa_cadastro::comandos::{
    atualizar_usuario, cadastrar_paciente, cadastrar_usuario, listar_usuarios, remover_usuario,
};
use upa_cadastro::erros::AppError;

fn banco_com_usuario(nome: &str, login: &str, senha: &str) -> (Banco, i64) {
    let mut banco = Banco::novo();
    let ok = cadastrar_usuario(
        &mut banco,
        nome.to_string(),
        login.to_string(),
        senha.to_string(),
    )
    .expect("cadastro deveria suceder");
    (banco, ok.id)
}

#[test]
fn paciente_nome_curto_rejeitado() {
    let mut banco = Banco::novo();
    let r = cadastrar_paciente(&mut banco, "  ab  ".to_string());
    assert_eq!(r.unwrap_err(), AppError::Validacao);
    assert_eq!(banco.quantidade_pacientes(), 0);
}

#[test]
fn paciente_nome_longo_rejeitado() {
    let mut banco = Banco::novo();
    let nome = "x".repeat(81);
    let r = cadastrar_paciente(&mut banco, nome);
    assert_eq!(r.unwrap_err(), AppError::Validacao);
    assert_eq!(banco.quantidade_pacientes(), 0);
}

#[test]
fn paciente_nome_aparado_e_id_positivo() {
    let mut banco = Banco::novo();
    let ok = cadastrar_paciente(&mut banco, " Ana ".to_string()).expect("deveria suceder");
    assert!(ok.id >= 1);
    assert_eq!(ok.mensagem, "Paciente cadastrado com sucesso.");
    assert_eq!(banco.nome_do_paciente(ok.id), Some("Ana".to_string()));
}

#[test]
fn usuario_nome_curto_rejeitado() {
    let mut banco = Banco::novo();
    let r = cadastrar_usuario(
        &mut banco,
        " ab ".to_string(),
        "ana.silva".to_string(),
        "segredo123".to_string(),
    );
    assert_eq!(r.unwrap_err(), AppError::Validacao);
    assert_eq!(banco.quantidade_usuarios(), 0);
}

#[test]
fn usuario_nome_longo_rejeitado() {
    let mut banco = Banco::novo();
    let r = cadastrar_usuario(
        &mut banco,
        "y".repeat(81),
        "ana.silva".to_string(),
        "segredo123".to_string(),
    );
    assert_eq!(r.unwrap_err(), AppError::Validacao);
    assert_eq!(banco.quantidade_usuarios(), 0);
}

#[test]
fn login_com_caractere_proibido_rejeitado() {
    let mut banco = Banco::novo();
    let r = cadastrar_usuario(
        &mut banco,
        "Ana Silva".to_string(),
        "ana silva!".to_string(),
        "segredo123".to_string(),
    );
    assert_eq!(r.unwrap_err(), AppError::Validacao);
    assert_eq!(banco.quantidade_usuarios(), 0);
}

#[test]
fn login_vazio_rejeitado() {
    let mut banco = Banco::novo();
    let r = cadastrar_usuario(
        &mut banco,
        "Ana Silva".to_string(),
        "   ".to_string(),
        "segredo123".to_string(),
    );
    assert_eq!(r.unwrap_err(), AppError::Validacao);
}

#[test]
fn senha_fora_dos_limites_rejeitada() {
    let mut banco = Banco::novo();
    let curta = cadastrar_usuario(
        &mut banco,
        "Ana Silva".to_string(),
        "ana".to_string(),
        "abc".to_string(),
    );
    assert_eq!(curta.unwrap_err(), AppError::Validacao);
    let longa = cadastrar_usuario(
        &mut banco,
        "Ana Silva".to_string(),
        "ana".to_string(),
        "z".repeat(65),
    );
    assert_eq!(longa.unwrap_err(), AppError::Validacao);
    assert_eq!(banco.quantidade_usuarios(), 0);
}

#[test]
fn cadastro_de_usuario_normaliza_campos() {
    let mut banco = Banco::novo();
    let ok = cadastrar_usuario(
        &mut banco,
        "  Ana Silva  ".to_string(),
        " Ana.Silva-1 ".to_string(),
        "segredo123".to_string(),
    )
    .expect("deveria suceder");
    assert_eq!(ok.id, 1);
    assert_eq!(ok.mensagem, "Usuário cadastrado com sucesso.");
    let listados = listar_usuarios(&banco);
    assert_eq!(listados.len(), 1);
    assert_eq!(listados[0].nome, "Ana Silva");
    assert_eq!(listados[0].login, "ana.silva-1");
}

#[test]
fn login_duplicado_gera_conflito() {
    let (mut banco, _) = banco_com_usuario("Ana Silva", "Ana.Silva", "segredo123");
    let r = cadastrar_usuario(
        &mut banco,
        "Outra Pessoa".to_string(),
        "ana.silva".to_string(),
        "outrosegredo9".to_string(),
    );
    assert_eq!(r.unwrap_err(), AppError::Conflito);
    assert_eq!(banco.quantidade_usuarios(), 1);
}

#[test]
fn login_duplicado_com_caixa_diferente_gera_conflito() {
    let (mut banco, _) = banco_com_usuario("Ana Silva", "ana.silva", "segredo123");
    let r = cadastrar_usuario(
        &mut banco,
        "Outra Pessoa".to_string(),
        "  ANA.SILVA  ".to_string(),
        "outrosegredo9".to_string(),
    );
    assert_eq!(r.unwrap_err(), AppError::Conflito);
    assert_eq!(banco.quantidade_usuarios(), 1);
}

#[test]
fn atualizar_inexistente_nao_encontrado() {
    let mut banco = Banco::novo();
    let r = atualizar_usuario(
        &mut banco,
        7,
        "Ana Silva".to_string(),
        "ana.silva".to_string(),
        None,
    );
    assert_eq!(r.unwrap_err(), AppError::NaoEncontrado);
    assert_eq!(banco.quantidade_usuarios(), 0);
}

#[test]
fn remover_inexistente_nao_encontrado() {
    let (mut banco, id) = banco_com_usuario("Ana Silva", "ana.silva", "segredo123");
    let r = remover_usuario(&mut banco, id + 10);
    assert_eq!(r.unwrap_err(), AppError::NaoEncontrado);
    assert_eq!(banco.quantidade_usuarios(), 1);
}

#[test]
fn remover_id_invalido_rejeitado() {
    let mut banco = Banco::novo();
    let r = remover_usuario(&mut banco, 0);
    assert_eq!(r.unwrap_err(), AppError::Validacao);
}

#[test]
fn remover_existente_apaga_a_linha() {
    let (mut banco, id) = banco_com_usuario("Ana Silva", "ana.silva", "segredo123");
    let ok = remover_usuario(&mut banco, id).expect("deveria suceder");
    assert_eq!(ok.id, id);
    assert_eq!(ok.mensagem, "Usuário removido com sucesso.");
    assert_eq!(banco.quantidade_usuarios(), 0);
}

#[test]
fn atualizar_com_senha_em_branco_preserva_hash() {
    let (mut banco, id) = banco_com_usuario("Ana Silva", "ana.silva", "segredo123");
    let hash_antes = banco.senha_hash_de(id).expect("usuário existe");
    let ok = atualizar_usuario(
        &mut banco,
        id,
        "Ana Maria Silva".to_string(),
        "ana.maria".to_string(),
        Some("   ".to_string()),
    )
    .expect("deveria suceder");
    assert_eq!(ok.id, id);
    assert_eq!(ok.mensagem, "Usuário atualizado com sucesso.");
    let hash_depois = banco.senha_hash_de(id).expect("usuário existe");
    assert_eq!(hash_antes, hash_depois);
    let listados = listar_usuarios(&banco);
    assert_eq!(listados[0].nome, "Ana Maria Silva");
    assert_eq!(listados[0].login, "ana.maria");
}

#[test]
fn atualizar_sem_senha_preserva_hash() {
    let (mut banco, id) = banco_com_usuario("Ana Silva", "ana.silva", "segredo123");
    let hash_antes = banco.senha_hash_de(id).expect("usuário existe");
    atualizar_usuario(
        &mut banco,
        id,
        "Ana Maria Silva".to_string(),
        "ana.silva".to_string(),
        None,
    )
    .expect("deveria suceder");
    assert_eq!(Some(hash_antes), banco.senha_hash_de(id));
}

#[test]
fn atualizar_com_senha_nova_troca_o_hash() {
    let (mut banco, id) = banco_com_usuario("Ana Silva", "ana.silva", "segredo123");
    let hash_antes = banco.senha_hash_de(id).expect("usuário existe");
    atualizar_usuario(
        &mut banco,
        id,
        "Ana Silva".to_string(),
        "ana.silva".to_string(),
        Some(" novosegredo77 ".to_string()),
    )
    .expect("deveria suceder");
    let hash_depois = banco.senha_hash_de(id).expect("usuário existe");
    assert_ne!(hash_antes, hash_depois);
    assert_ne!(hash_depois, "novosegredo77");
    assert!(hash_depois.len() > 64);
}

#[test]
fn atualizar_para_login_de_outro_gera_conflito() {
    let (mut banco, _) = banco_com_usuario("Ana Silva", "ana.silva", "segredo123");
    let ok = cadastrar_usuario(
        &mut banco,
        "Bruno Souza".to_string(),
        "bruno.souza".to_string(),
        "segredo456".to_string(),
    )
    .expect("deveria suceder");
    let r = atualizar_usuario(
        &mut banco,
        ok.id,
        "Bruno Souza".to_string(),
        "ANA.SILVA".to_string(),
        None,
    );
    assert_eq!(r.unwrap_err(), AppError::Conflito);
    let listados = listar_usuarios(&banco);
    assert_eq!(listados.len(), 2);
    assert_eq!(listados[0].login, "bruno.souza");
}

#[test]
fn listagem_ordenada_por_id_decrescente() {
    let mut banco = Banco::novo();
    for (nome, login) in [
        ("Ana Silva", "ana.silva"),
        ("Bruno Souza", "bruno.souza"),
        ("Carla Lima", "carla.lima"),
    ] {
        cadastrar_usuario(
            &mut banco,
            nome.to_string(),
            login.to_string(),
            "segredo123".to_string(),
        )
        .expect("deveria suceder");
    }
    let listados = listar_usuarios(&banco);
    assert_eq!(listados.len(), 3);
    let ids: Vec<i64> = listados.iter().map(|u| u.id).collect();
    assert_eq!(ids, vec![3, 2, 1]);
    let logins: Vec<&str> = listados.iter().map(|u| u.login.as_str()).collect();
    assert_eq!(logins, vec!["carla.lima", "bruno.souza", "ana.silva"]);
}

#[test]
fn nomes_nos_limites_sao_aceitos() {
    let mut banco = Banco::novo();
    cadastrar_paciente(&mut banco, "abc".to_string()).expect("3 caracteres bastam");
    cadastrar_paciente(&mut banco, "n".repeat(80)).expect("80 caracteres bastam");
    assert_eq!(banco.quantidade_pacientes(), 2);
}

#[test]
fn senhas_nos_limites_sao_aceitas() {
    let mut banco = Banco::novo();
    cadastrar_usuario(
        &mut banco,
        "Ana Silva".to_string(),
        "ana".to_string(),
        "12345678".to_string(),
    )
    .expect("8 caracteres bastam");
    cadastrar_usuario(
        &mut banco,
        "Bruno Souza".to_string(),
        "bruno".to_string(),
        "s".repeat(64),
    )
    .expect("64 caracteres bastam");
    assert_eq!(banco.quantidade_usuarios(), 2);
}

#[test]
fn identificadores_crescem_um_a_um() {
    let mut banco = Banco::novo();
    let a = cadastrar_paciente(&mut banco, "Ana Silva".to_string()).unwrap();
    let b = cadastrar_paciente(&mut banco, "Bruno Souza".to_string()).unwrap();
    assert_eq!(a.id, 1);
    assert_eq!(b.id, 2);
}
