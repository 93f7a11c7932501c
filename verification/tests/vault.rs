use ipfs_effector::error::EffectorError;
use ipfs_effector::vault::{
    format_particle_dir, get_host_vault_path, inject_vault, inject_vault_host_path,
    CallerIdentity, VIRTUAL_VAULT_ROOT,
};

fn particle() -> CallerIdentity {
    CallerIdentity { id: "test_id".to_string(), token: "token".to_string() }
}

#[test]
fn test_inject() {
    let particle = particle();

    let real_vault_prefix = "/real/storage";

    let result = inject_vault_host_path(
        &particle,
        real_vault_prefix,
        "/tmp/vault/test_id-token/input.json",
    );
    assert!(matches!(result, Ok(_)));
    assert_eq!(result.unwrap(), "/real/storage/test_id-token/input.json");

    let result = inject_vault_host_path(&particle, real_vault_prefix, "input.json");
    assert!(matches!(result, Ok(_)));
    assert_eq!(result.unwrap(), "/real/storage/test_id-token/input.json");

    let result = inject_vault_host_path(&particle, real_vault_prefix, "/etc/passwd");
    assert!(matches!(result, Err(_)), "non-vault paths are forbidden");

    let result = inject_vault_host_path(
        &particle,
        real_vault_prefix,
        "/tmp/vault/test_id2-token2/input.json",
    );
    assert!(
        matches!(result, Err(_)),
        "paths in vaults of other particles are also forbidden"
    );

    let result = inject_vault_host_path(&particle, real_vault_prefix, "vault_dir/input.json");
    assert!(matches!(result, Err(_)), "only filenames in the vault are allowed");
}

#[test]
fn particle_dir_is_id_dash_token() {
    assert_eq!(format_particle_dir(&particle()), "test_id-token");
    let empty = CallerIdentity { id: String::new(), token: String::new() };
    assert_eq!(format_particle_dir(&empty), "-");
}

#[test]
fn vault_root_is_fixed() {
    assert_eq!(VIRTUAL_VAULT_ROOT, "/tmp/vault");
}

#[test]
fn full_virtual_path_resolves() {
    let result =
        inject_vault_host_path(&particle(), "/real/storage", "/tmp/vault/test_id-token/input.json");
    assert_eq!(result, Ok("/real/storage/test_id-token/input.json".to_string()));
}

#[test]
fn bare_filename_resolves() {
    let result = inject_vault_host_path(&particle(), "/real/storage", "input.json");
    assert_eq!(result, Ok("/real/storage/test_id-token/input.json".to_string()));
}

#[test]
fn system_path_is_outside_vault() {
    let result = inject_vault_host_path(&particle(), "/real/storage", "/etc/passwd");
    assert_eq!(result, Err(EffectorError::OutsideVault));
}

#[test]
fn other_vault_is_outside_vault() {
    let result = inject_vault_host_path(
        &particle(),
        "/real/storage",
        "/tmp/vault/test_id2-token2/input.json",
    );
    assert_eq!(result, Err(EffectorError::OutsideVault));
}

#[test]
fn bare_nested_path_is_not_a_filename() {
    let result = inject_vault_host_path(&particle(), "/real/storage", "vault_dir/input.json");
    assert_eq!(result, Err(EffectorError::NotAFilename));
    let result = inject_vault_host_path(&particle(), "/real/storage", "sub/dir/file");
    assert_eq!(result, Err(EffectorError::NotAFilename));
}

#[test]
fn rooted_nested_path_is_not_a_filename() {
    let result = inject_vault_host_path(
        &particle(),
        "/real/storage",
        "/tmp/vault/test_id-token/sub/dir/file",
    );
    assert_eq!(result, Err(EffectorError::NotAFilename));
}

#[test]
fn vault_directory_resolves_to_real_directory() {
    let result = inject_vault_host_path(&particle(), "/real/storage", "/tmp/vault/test_id-token");
    assert_eq!(result, Ok("/real/storage/test_id-token".to_string()));
}

#[test]
fn vault_directory_with_closing_slash_is_the_directory() {
    let result = inject_vault_host_path(&particle(), "/real/storage", "/tmp/vault/test_id-token/");
    assert_eq!(result, Ok("/real/storage/test_id-token".to_string()));
}

#[test]
fn empty_path_is_the_directory() {
    let result = inject_vault_host_path(&particle(), "/real/storage", "");
    assert_eq!(result, Ok("/real/storage/test_id-token".to_string()));
}

#[test]
fn prefix_must_end_with_a_segment() {
    let result = inject_vault_host_path(&particle(), "/real/storage", "/tmp/vault/test_id-tokenX");
    assert_eq!(result, Err(EffectorError::OutsideVault));
    let result =
        inject_vault_host_path(&particle(), "/real/storage", "/tmp/vault/test_id-tokenX/file");
    assert_eq!(result, Err(EffectorError::OutsideVault));
}

#[test]
fn shorter_rooted_paths_are_outside() {
    for path in ["/", "/tmp", "/tmp/vault", "/tmp/vault/", "/tmp/vault/test_id-toke"] {
        let result = inject_vault_host_path(&particle(), "/real/storage", path);
        assert_eq!(result, Err(EffectorError::OutsideVault), "{}", path);
    }
}

#[test]
fn doubled_slash_after_vault_is_not_a_filename() {
    let result =
        inject_vault_host_path(&particle(), "/real/storage", "/tmp/vault/test_id-token//file");
    assert_eq!(result, Err(EffectorError::NotAFilename));
}

#[test]
fn filename_with_closing_slash_is_not_a_filename() {
    let result = inject_vault_host_path(&particle(), "/real/storage", "file/");
    assert_eq!(result, Err(EffectorError::NotAFilename));
}

#[test]
fn dot_segments_are_taken_literally() {
    let result = inject_vault_host_path(&particle(), "/real/storage", "..");
    assert_eq!(result, Ok("/real/storage/test_id-token/..".to_string()));
    let result = inject_vault_host_path(&particle(), "/real/storage", "../other-vault");
    assert_eq!(result, Err(EffectorError::NotAFilename));
}

#[test]
fn filenames_beyond_ascii_resolve() {
    let result = inject_vault_host_path(&particle(), "/real/storage", "日本語.txt");
    assert_eq!(result, Ok("/real/storage/test_id-token/日本語.txt".to_string()));
    let caller = CallerIdentity { id: "été".to_string(), token: "ключ".to_string() };
    let result = inject_vault_host_path(&caller, "/r", "/tmp/vault/été-ключ/ñ");
    assert_eq!(result, Ok("/r/été-ключ/ñ".to_string()));
}

#[test]
fn both_ways_of_naming_a_file_agree() {
    for name in ["a", "input.json", ".hidden", "with space", "..", "x-y_z"] {
        let bare = inject_vault_host_path(&particle(), "/real/storage", name);
        let full = inject_vault_host_path(
            &particle(),
            "/real/storage",
            &format!("/tmp/vault/test_id-token/{}", name),
        );
        assert_eq!(bare, Ok(format!("/real/storage/test_id-token/{}", name)));
        assert_eq!(full, bare);
    }
}

#[test]
fn resolving_twice_gives_the_same() {
    for path in ["input.json", "/tmp/vault/test_id-token/input.json", "/etc/passwd", "a/b", ""] {
        let first = inject_vault_host_path(&particle(), "/real/storage", path);
        let second = inject_vault_host_path(&particle(), "/real/storage", path);
        assert_eq!(first, second);
    }
}

#[test]
fn resolved_paths_stay_in_the_vault() {
    let paths = [
        "input.json",
        "/tmp/vault/test_id-token/input.json",
        "/tmp/vault/test_id-token",
        "",
        "..",
        "/etc/passwd",
        "a/b",
        "/tmp/vault/other-one/file",
    ];
    for path in paths {
        if let Ok(resolved) = inject_vault_host_path(&particle(), "/real/storage", path) {
            let vault = "/real/storage/test_id-token";
            let inside = match resolved.strip_prefix(vault) {
                Some("") => true,
                Some(rest) => rest.starts_with('/') && rest.len() > 1 && !rest[1..].contains('/'),
                None => false,
            };
            assert!(inside, "{} -> {}", path, resolved);
        }
    }
}

#[test]
fn real_root_is_used_as_given() {
    let result = inject_vault_host_path(&particle(), "", "f");
    assert_eq!(result, Ok("/test_id-token/f".to_string()));
    let result = inject_vault_host_path(&particle(), "/data/", "f");
    assert_eq!(result, Ok("/data//test_id-token/f".to_string()));
}

#[test]
fn host_vault_path_needs_a_mapping() {
    assert_eq!(get_host_vault_path(Some("/real/storage".to_string())), Ok("/real/storage".to_string()));
    assert_eq!(get_host_vault_path(None), Err(EffectorError::VaultNotMapped));
}

#[test]
fn unmapped_vault_refuses_whatever_the_path() {
    let paths = [
        "input.json",
        "/tmp/vault/test_id-token/input.json",
        "/tmp/vault/test_id-token",
        "/etc/passwd",
        "vault_dir/input.json",
        "",
    ];
    for path in paths {
        assert_eq!(inject_vault(&particle(), None, path), Err(EffectorError::VaultNotMapped));
    }
}

#[test]
fn mapped_vault_resolves_like_the_host_path() {
    let mapping = Some("/real/storage".to_string());
    assert_eq!(
        inject_vault(&particle(), mapping.clone(), "input.json"),
        Ok("/real/storage/test_id-token/input.json".to_string())
    );
    assert_eq!(
        inject_vault(&particle(), mapping.clone(), "/etc/passwd"),
        Err(EffectorError::OutsideVault)
    );
    assert_eq!(
        inject_vault(&particle(), mapping, "vault_dir/input.json"),
        Err(EffectorError::NotAFilename)
    );
}
