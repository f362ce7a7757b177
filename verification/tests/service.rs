use pulsar::service::{fill_template, unix_runner_script, windows_runner_script};

#[test]
fn fills_every_runner_mark() {
    let t = "[Service]\nExecStart=__PULSAR_RUNNER__\n# __PULSAR_RUNNER__\n";
    assert_eq!(
        fill_template(t, "/home/u/.local/share/pulsar/pulsar-service.sh"),
        "[Service]\nExecStart=/home/u/.local/share/pulsar/pulsar-service.sh\n# /home/u/.local/share/pulsar/pulsar-service.sh\n"
    );
    assert_eq!(fill_template("no mark", "x"), "no mark");
    assert_eq!(fill_template("__PULSAR_RUNNER", "x"), "__PULSAR_RUNNER");
    assert_eq!(fill_template("", "x"), "");
}

#[test]
fn runner_scripts_start_recording() {
    assert_eq!(
        unix_runner_script("/bin/sysray", "/c/p.toml", "/data"),
        "#!/usr/bin/env sh\nexec \"/bin/sysray\" --config \"/c/p.toml\" record --interval 5s --output \"/data\"\n"
    );
    assert_eq!(
        windows_runner_script("C:\\s.exe", "C:\\p.toml", "C:\\d"),
        "@echo off\r\n\"C:\\s.exe\" --config \"C:\\p.toml\" record --interval 5s --output \"C:\\d\"\r\n"
    );
}
