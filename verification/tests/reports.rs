use rasterize::report::{printout, render_report, validation_report, CommandReport, OutputFormat};

fn report(stdout: &str, stderr: &str, return_code: i32) -> CommandReport {
    CommandReport { stdout: stdout.to_string(), stderr: stderr.to_string(), return_code }
}

#[test]
fn valid_file_is_reported_on_stdout() {
    let r = validation_report("env.toml", Ok(()));
    assert_eq!(r.stdout, "env.toml is a valid EDF file");
    assert_eq!(r.stderr, "");
    assert_eq!(r.return_code, 0);
}

#[test]
fn invalid_file_is_reported_with_its_error() {
    let r = validation_report("env.toml", Err("missing field `image`".to_string()));
    assert_eq!(r.stdout, "env.toml is an INVALID EDF file");
    assert_eq!(r.stderr, "missing field `image`");
    assert_eq!(r.return_code, 1);
}

#[test]
fn validation_report_takes_any_path() {
    let r = validation_report("", Ok(()));
    assert_eq!(r.stdout, " is a valid EDF file");
    let r = validation_report("/srv/définitions/app.toml", Err(String::new()));
    assert_eq!(r.stdout, "/srv/définitions/app.toml is an INVALID EDF file");
    assert_eq!(r.stderr, "");
    assert_eq!(r.return_code, 1);
}

#[test]
fn rendered_definition_is_reported_as_json() {
    let r = render_report(Ok(Some("{\n  \"image\": \"library/app:1.0\"\n}".to_string())));
    assert_eq!(r.stdout, "{\n  \"image\": \"library/app:1.0\"\n}");
    assert_eq!(r.stderr, "");
    assert_eq!(r.return_code, 0);
}

#[test]
fn unserialisable_definition_is_reported_as_error_text() {
    let r = render_report(Ok(None));
    assert_eq!(r.stdout, "ERROR");
    assert_eq!(r.stderr, "");
    assert_eq!(r.return_code, 0);
}

#[test]
fn failed_rendering_is_reported_on_stderr() {
    let r = render_report(Err("no such file".to_string()));
    assert_eq!(r.stdout, "");
    assert_eq!(r.stderr, "no such file");
    assert_eq!(r.return_code, 1);
}

#[test]
fn text_prints_each_stream_that_has_something() {
    let p = printout(OutputFormat::Text, &report("out", "err", 1), None);
    assert_eq!(p.stdout, Some("out".to_string()));
    assert_eq!(p.stderr, Some("err".to_string()));
    let p = printout(OutputFormat::Text, &report("out", "", 0), None);
    assert_eq!(p.stdout, Some("out".to_string()));
    assert_eq!(p.stderr, None);
    let p = printout(OutputFormat::Text, &report("", "err", 1), None);
    assert_eq!(p.stdout, None);
    assert_eq!(p.stderr, Some("err".to_string()));
    let p = printout(OutputFormat::Text, &report("", "", 0), None);
    assert_eq!(p.stdout, None);
    assert_eq!(p.stderr, None);
}

#[test]
fn text_ignores_the_serialised_report() {
    let p = printout(OutputFormat::Text, &report("out", "", 0), Some("{}".to_string()));
    assert_eq!(p.stdout, Some("out".to_string()));
    assert_eq!(p.stderr, None);
}

#[test]
fn json_prints_the_serialised_report_on_stdout() {
    let json = "{\"stdout\":\"out\",\"stderr\":\"err\",\"return_code\":1}".to_string();
    let p = printout(OutputFormat::Json, &report("out", "err", 1), Some(json.clone()));
    assert_eq!(p.stdout, Some(json));
    assert_eq!(p.stderr, None);
}

#[test]
fn json_falls_back_to_an_empty_object() {
    let p = printout(OutputFormat::Json, &report("out", "err", 1), None);
    assert_eq!(p.stdout, Some("{}".to_string()));
    assert_eq!(p.stderr, None);
    let p = printout(OutputFormat::Json, &report("", "", 0), None);
    assert_eq!(p.stdout, Some("{}".to_string()));
}

#[test]
fn validation_report_prints_as_the_command_does() {
    let r = validation_report("env.toml", Err("bad".to_string()));
    let p = printout(OutputFormat::Text, &r, None);
    assert_eq!(p.stdout, Some("env.toml is an INVALID EDF file".to_string()));
    assert_eq!(p.stderr, Some("bad".to_string()));
    let r = validation_report("env.toml", Ok(()));
    let p = printout(OutputFormat::Text, &r, None);
    assert_eq!(p.stdout, Some("env.toml is a valid EDF file".to_string()));
    assert_eq!(p.stderr, None);
}
