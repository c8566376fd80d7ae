use rdo::profile::Args;

fn full_profile() -> Args {
    Args::new(
        String::from("db"),
        5432,
        String::from("odoo"),
        None,
        String::from("c1"),
        None,
    )
}

#[test]
fn new_sets_every_field() {
    let p = Args::new(
        String::from("h"),
        1,
        String::from("u"),
        Some(String::from("pw")),
        String::from("c"),
        Some(String::from("/b")),
    );
    assert_eq!(p.xhost.as_deref(), Some("h"));
    assert_eq!(p.port, Some(1));
    assert_eq!(p.username.as_deref(), Some("u"));
    assert_eq!(p.password.as_deref(), Some("pw"));
    assert_eq!(p.container_id.as_deref(), Some("c"));
    assert_eq!(p.dir_backup.as_deref(), Some("/b"));
}

#[test]
fn capability_needs_host_port_user_and_container() {
    assert!(full_profile().is_restore_capable());
    for strip in 0..4 {
        let mut p = full_profile();
        match strip {
            0 => p.xhost = None,
            1 => p.port = None,
            2 => p.username = None,
            _ => p.container_id = None,
        }
        assert!(!p.is_restore_capable());
    }
    // The password and the backup root play no part in capability.
    let mut p = full_profile();
    p.password = Some(String::from("pw"));
    p.dir_backup = Some(String::from("/b"));
    assert!(p.is_restore_capable());
}

#[test]
fn dump_path_with_explicit_backup_root() {
    let mut p = full_profile();
    p.dir_backup = Some(String::from("/tmp/backups"));
    assert_eq!(p.generate_file_path("sales"), "/tmp/backups/sales/dump.sql");
}

#[test]
fn dump_path_falls_back_to_the_default_root() {
    let p = full_profile();
    assert!(p.dir_backup.is_none());
    assert_eq!(p.generate_file_path("sales"), "/tmp/backups/sales/dump.sql");
}

#[test]
fn dump_path_with_another_root() {
    let mut p = full_profile();
    p.dir_backup = Some(String::from("/var/backups"));
    assert_eq!(p.generate_file_path("crm"), "/var/backups/crm/dump.sql");
}

#[test]
fn merge_overrides_prefers_present_fields() {
    let base = Args::new(
        String::from("db"),
        5432,
        String::from("odoo"),
        Some(String::from("old-pw")),
        String::from("c1"),
        None,
    );
    let overrides = Args {
        xhost: None,
        port: None,
        username: None,
        password: Some(String::from("new-pw")),
        container_id: Some(String::from("c2")),
        dir_backup: Some(String::from("/b")),
    };
    let merged = base.merge_overrides(&overrides);
    assert_eq!(merged.xhost.as_deref(), Some("db"));
    assert_eq!(merged.port, Some(5432));
    assert_eq!(merged.username.as_deref(), Some("odoo"));
    assert_eq!(merged.password.as_deref(), Some("new-pw"));
    assert_eq!(merged.container_id.as_deref(), Some("c2"));
    assert_eq!(merged.dir_backup.as_deref(), Some("/b"));
    // The inputs are untouched.
    assert_eq!(base.password.as_deref(), Some("old-pw"));
}

#[test]
fn probe_invocation_without_password() {
    let p = full_profile();
    let args = p.probe_invocation("sales");
    assert_eq!(
        args,
        vec![
            String::from("exec"),
            String::from("c1"),
            String::from("bash"),
            String::from("-c"),
            String::from(
                "psql --host \"db\" --port \"5432\" --username \"odoo\" \
                 --dbname postgres -c \"SELECT 1 FROM pg_database WHERE datname = 'sales';\""
            ),
        ]
    );
}

#[test]
fn probe_invocation_with_password_adds_the_environment_override() {
    let mut p = full_profile();
    p.password = Some(String::from("pw"));
    let args = p.probe_invocation("sales");
    assert_eq!(args[0], "exec");
    assert_eq!(args[1], "-e");
    assert_eq!(args[2], "PGPASSWORD=pw");
    assert_eq!(args[3], "c1");
    assert_eq!(args[4], "bash");
    assert_eq!(args[5], "-c");
    assert_eq!(args.len(), 7);
    // The password travels in the environment only, never in the command.
    assert!(!args[6].contains("pw"));
}

#[test]
fn create_invocation_quotes_the_database_name() {
    let p = full_profile();
    let args = p.create_invocation("sales");
    assert_eq!(
        args[4],
        "psql --host \"db\" --port \"5432\" --username \"odoo\" \
         --dbname postgres -c \"CREATE DATABASE \\\"sales\\\";\""
    );
}

#[test]
fn restore_invocation_uses_the_resolved_dump_path() {
    let mut p = full_profile();
    p.dir_backup = Some(String::from("/data/bk"));
    let args = p.restore_invocation("sales");
    assert_eq!(
        args[4],
        "psql --host \"db\" --port \"5432\" --username \"odoo\" \
         --dbname \"sales\" -f \"/data/bk/sales/dump.sql\""
    );
}

#[test]
fn port_renders_in_decimal_at_both_extremes() {
    let mut p = full_profile();
    p.port = Some(0);
    assert!(p.probe_invocation("d")[4].contains("--port \"0\""));
    p.port = Some(65535);
    assert!(p.probe_invocation("d")[4].contains("--port \"65535\""));
}
