use acmed_core::error::Error;
use acmed_core::storage::{
    account_files_exists, certificate_files_exists, get_file_full_path, get_file_path,
    set_account_keypair, set_keypair, write_certificate, Certificate, FileType, HookType,
    Principal, WriteAction, WritePhase, WriteRun,
};

fn context() -> Certificate {
    Certificate {
        account_name: "test".to_string(),
        account_directory: "/var/lib/acme/accounts".to_string(),
        crt_name: "example.org".to_string(),
        algo: "rsa2048".to_string(),
        crt_directory: "/etc/ssl/".to_string(),
        cert_file_mode: 0o644,
        cert_file_owner: Some("1001".to_string()),
        cert_file_group: Some("www".to_string()),
        pk_file_mode: 0o600,
        pk_file_owner: None,
        pk_file_group: Some("99999999999".to_string()),
        env: vec![("DOMAIN".to_string(), "example.org".to_string())],
    }
}

fn run_to_end(run: &mut WriteRun, fail_at: Option<usize>) -> Vec<String> {
    let mut log = Vec::new();
    let mut outcome: Result<(), Error> = Ok(());
    for i in 0..10 {
        let action = run.step(outcome);
        outcome = if fail_at == Some(i) { Err(Error::Other("refused".to_string())) } else { Ok(()) };
        match action {
            WriteAction::RunHook(h) => log.push(format!("hook {:?}", h)),
            WriteAction::WriteFile(mode) => log.push(format!("write {:o}", mode)),
            WriteAction::Chown(c) => {
                let u = match c.user {
                    Some(Principal::Id(n)) => format!("id {}", n),
                    Some(Principal::Name(s)) => format!("name {}", s),
                    None => "none".to_string(),
                };
                let g = match c.group {
                    Some(Principal::Id(n)) => format!("id {}", n),
                    Some(Principal::Name(s)) => format!("name {}", s),
                    None => "none".to_string(),
                };
                log.push(format!("chown {} {}", u, g));
            }
            WriteAction::Finish(r) => {
                log.push(format!("finish {:?}", r));
                break;
            }
        }
    }
    log
}

#[test]
fn account_key_names() {
    let cert = context();
    let (dir, name, path) = get_file_full_path(&cert, FileType::AccountPrivateKey);
    assert_eq!(dir, "/var/lib/acme/accounts");
    assert_eq!(name, "dGVzdA.priv-key.pem");
    assert_eq!(path, "/var/lib/acme/accounts/dGVzdA.priv-key.pem");
    assert_eq!(
        get_file_path(&cert, FileType::AccountPublicKey),
        "/var/lib/acme/accounts/dGVzdA.pub-key.pem"
    );
}

#[test]
fn certificate_names() {
    let cert = context();
    let (dir, name, path) = get_file_full_path(&cert, FileType::Certificate);
    assert_eq!(dir, "/etc/ssl/");
    assert_eq!(name, "example.org_rsa2048.crt.pem");
    assert_eq!(path, "/etc/ssl/example.org_rsa2048.crt.pem");
    assert_eq!(get_file_path(&cert, FileType::PrivateKey), "/etc/ssl/example.org_rsa2048.pk.pem");
}

#[test]
fn resolution_is_stable() {
    let cert = context();
    let a = get_file_full_path(&cert, FileType::PrivateKey);
    let b = get_file_full_path(&cert, FileType::PrivateKey);
    assert_eq!(a, b);
}

#[test]
fn account_name_is_base64url_encoded() {
    let mut cert = context();
    cert.account_name = "a?>b".to_string();
    let (_, name, _) = get_file_full_path(&cert, FileType::AccountPublicKey);
    assert_eq!(name, "YT8-Yg.pub-key.pem");
}

#[test]
fn account_files_presence() {
    let cert = context();
    assert!(!account_files_exists(&cert, &[]));
    let one = vec![get_file_path(&cert, FileType::AccountPrivateKey)];
    assert!(!account_files_exists(&cert, &one));
    let both = vec![
        get_file_path(&cert, FileType::AccountPublicKey),
        get_file_path(&cert, FileType::AccountPrivateKey),
    ];
    assert!(account_files_exists(&cert, &both));
    assert!(!certificate_files_exists(&cert, &both));
}

#[test]
fn certificate_files_presence() {
    let cert = context();
    let both = vec![
        get_file_path(&cert, FileType::Certificate),
        get_file_path(&cert, FileType::PrivateKey),
    ];
    assert!(certificate_files_exists(&cert, &both));
    assert!(!certificate_files_exists(&cert, &both[..1]));
}

#[test]
fn first_certificate_write() {
    let cert = context();
    let mut run = write_certificate(&cert, b"PEM", false);
    assert!(run.is_new);
    assert_eq!(run.data, b"PEM".to_vec());
    assert_eq!(run.hook_data.file_path, "/etc/ssl/example.org_rsa2048.crt.pem");
    assert_eq!(run.hook_data.file_name, "example.org_rsa2048.crt.pem");
    assert_eq!(run.hook_data.file_directory, "/etc/ssl/");
    assert_eq!(run.hook_data.env, cert.env);
    let log = run_to_end(&mut run, None);
    assert_eq!(
        log,
        vec![
            "hook FilePreCreate",
            "write 644",
            "chown id 1001 name www",
            "hook FilePostCreate",
            "finish Ok(())",
        ]
    );
    assert_eq!(run.phase, WritePhase::Done);
}

#[test]
fn certificate_rewrite_uses_edit_hooks() {
    let cert = context();
    let mut run = write_certificate(&cert, b"PEM", true);
    let log = run_to_end(&mut run, None);
    assert_eq!(log[0], "hook FilePreEdit");
    assert_eq!(log[3], "hook FilePostEdit");
}

#[test]
fn pre_hook_failure_writes_nothing() {
    let cert = context();
    let mut run = write_certificate(&cert, b"PEM", false);
    let log = run_to_end(&mut run, Some(0));
    assert_eq!(log, vec!["hook FilePreCreate", "finish Err(Other(\"refused\"))"]);
    assert!(matches!(run.step(Ok(())), WriteAction::Finish(Err(Error::UnexpectedEvent))));
}

#[test]
fn account_keys_keep_their_owner() {
    let cert = context();
    let (mut private_run, mut public_run) = set_account_keypair(&cert, b"PRIV", b"PUB", false, true);
    assert_eq!(private_run.data, b"PRIV".to_vec());
    assert_eq!(public_run.data, b"PUB".to_vec());
    assert!(private_run.hook_data.file_name.ends_with(".priv-key.pem"));
    assert!(public_run.hook_data.file_name.ends_with(".pub-key.pem"));
    let log = run_to_end(&mut private_run, None);
    assert_eq!(log, vec!["hook FilePreCreate", "write 600", "hook FilePostCreate", "finish Ok(())"]);
    let log = run_to_end(&mut public_run, None);
    assert_eq!(log, vec!["hook FilePreEdit", "write 600", "hook FilePostEdit", "finish Ok(())"]);
}

#[test]
fn oversized_group_id_is_refused() {
    let cert = context();
    let mut run = set_keypair(&cert, b"KEY", false);
    assert_eq!(run.hook_data.file_path, get_file_path(&cert, FileType::PrivateKey));
    assert_eq!(run.data, b"KEY".to_vec());
    let log = run_to_end(&mut run, None);
    assert_eq!(
        log,
        vec![
            "hook FilePreCreate",
            "write 600",
            "finish Err(InvalidPrincipal(\"99999999999\"))",
        ]
    );
}

#[test]
fn largest_numeric_owner() {
    let mut cert = context();
    cert.cert_file_owner = Some("4294967295".to_string());
    cert.cert_file_group = None;
    let mut run = write_certificate(&cert, b"", false);
    let log = run_to_end(&mut run, None);
    assert_eq!(log[2], "chown id 4294967295 none");
    cert.cert_file_owner = Some("4294967296".to_string());
    let mut run = write_certificate(&cert, b"", false);
    let log = run_to_end(&mut run, None);
    assert_eq!(log[2], "finish Err(InvalidPrincipal(\"4294967296\"))");
}

#[test]
fn hook_types_differ() {
    assert_ne!(HookType::FilePreCreate, HookType::FilePostCreate);
}
