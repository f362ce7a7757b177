use pulsar::install::{
    fish_path_block, should_manage_fish, should_manage_unix_file, unix_path_block,
    upsert_managed_block,
};

#[test]
fn upsert_appends_managed_block_when_missing() {
    let updated = upsert_managed_block(
        "export FOO=bar\n",
        "# >>> sysray path >>>\nexport PATH=\"/tmp:$PATH\"\n# <<< sysray path <<<\n",
    );
    assert!(updated.contains("export FOO=bar"));
    assert!(updated.contains("export PATH=\"/tmp:$PATH\""));
}

#[test]
fn upsert_replaces_existing_managed_block() {
    let content = "# >>> sysray path >>>\nold\n# <<< sysray path <<<\nexport FOO=bar\n";
    let updated = upsert_managed_block(
        content,
        "# >>> sysray path >>>\nexport PATH=\"/new:$PATH\"\n# <<< sysray path <<<\n",
    );
    assert!(!updated.contains("\nold\n"));
    assert!(updated.contains("export PATH=\"/new:$PATH\""));
    assert!(updated.contains("export FOO=bar"));
}

#[test]
fn upsert_exact_texts() {
    let block = unix_path_block("/opt/bin");
    assert_eq!(
        block,
        "# >>> sysray path >>>\nexport PATH=\"/opt/bin:$PATH\"\n# <<< sysray path <<<\n"
    );
    assert_eq!(upsert_managed_block("", &block), block);
    assert_eq!(upsert_managed_block("a\n\n", &block), format!("a\n{}", block));
    let once = upsert_managed_block("a\n", &block);
    let twice = upsert_managed_block(&once, &block);
    assert_eq!(once, twice);
}

#[test]
fn fish_block_text() {
    assert_eq!(
        fish_path_block("/x"),
        "# >>> sysray path >>>\nif not contains \"/x\" $PATH\n    set -gx PATH \"/x\" $PATH\nend\n# <<< sysray path <<<\n"
    );
}

#[test]
fn profiles_to_manage() {
    assert!(should_manage_unix_file(true, Some(".zshrc"), "/bin/bash"));
    assert!(should_manage_unix_file(false, Some(".profile"), "/bin/sh"));
    assert!(should_manage_unix_file(false, Some(".bashrc"), "/bin/bash"));
    assert!(!should_manage_unix_file(false, Some(".bashrc"), "/bin/zsh"));
    assert!(should_manage_unix_file(false, Some(".zprofile"), "/usr/bin/zsh"));
    assert!(!should_manage_unix_file(false, Some(".kshrc"), "/bin/ksh"));
    assert!(!should_manage_unix_file(false, None, "/bin/bash"));
    assert!(should_manage_fish(false, "/usr/bin/fish"));
    assert!(!should_manage_fish(false, "/bin/bash"));
    assert!(should_manage_fish(true, "/bin/bash"));
}

#[test]
fn fish_block_settles_after_one_write() {
    let block = fish_path_block("/home/u/.local/bin");
    let once = upsert_managed_block("set -x EDITOR vim\n\n", &block);
    assert_eq!(once, format!("set -x EDITOR vim\n{}", block));
    assert_eq!(upsert_managed_block(&once, &block), once);
}

#[test]
fn text_after_block_gains_a_blank_line_on_rewrite() {
    let block = unix_path_block("/b");
    let content = format!("A\n{}tail\n", block);
    let again = upsert_managed_block(&content, &block);
    assert_eq!(again, format!("A\n{}\ntail\n", block));
}
