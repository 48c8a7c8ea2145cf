use pen::llvm_command_finder::candidate_commands;

#[test]
fn candidates_prefer_newer_versions() {
    let candidates = candidate_commands("llvm-config");

    assert_eq!(
        candidates,
        vec![
            "llvm-config-12".to_string(),
            "llvm-config-11".to_string(),
            "llvm-config".to_string(),
        ]
    );
}
