use aicmd::api::{authorization_value, interpret_buffered, remote_error, request_body, ApiErrorKind, ChatRequest, Role};
use aicmd::choice::{choice_source, parse_choice, InputSource, InteractionChoice};
use aicmd::config::Config;
use aicmd::platform::{detect_os, detect_shell, Platform, ShellEnv};
use aicmd::prompt::{chat_mode_prompt, explain_command_prompt, generate_command_prompt};
use aicmd::session::{check_generated_command, join_description, normalize_piped, plan_invocation, Mode, SessionError};
use aicmd::stream::{chunk_payloads, frame_payload, text_payloads, Frame, StreamAccumulator};
use aicmd::text::{contains, trim};

fn decode_frame(payload: &str) -> Frame {
    let decoded = match serde_json::from_str::<serde_json::Value>(payload) {
        Ok(v) => match v.get("choices").and_then(|c| c.as_array()) {
            Some(cs) => Ok(cs
                .iter()
                .map(|c| c["delta"]["content"].as_str().map(|s| s.to_string()))
                .collect()),
            None => Err(()),
        },
        Err(_) => Err(()),
    };
    Frame::from_decoded(decoded)
}

fn error_message(body: &str) -> Option<String> {
    serde_json::from_str::<serde_json::Value>(body)
        .ok()
        .and_then(|v| v["error"]["message"].as_str().map(|s| s.to_string()))
}

fn reply_contents(body: &str) -> Result<Vec<String>, String> {
    match serde_json::from_str::<serde_json::Value>(body) {
        Ok(v) => match v.get("choices").and_then(|c| c.as_array()) {
            Some(cs) => Ok(cs
                .iter()
                .map(|c| c["message"]["content"].as_str().unwrap_or("").to_string())
                .collect()),
            None => Err("missing field `choices`".to_string()),
        },
        Err(e) => Err(e.to_string()),
    }
}

fn unix_env(shell: Option<&str>) -> ShellEnv {
    ShellEnv { shell: shell.map(|s| s.to_string()), ps_version_table: false, term_program: None, comspec: None }
}

fn windows_env(ps: bool, term: Option<&str>, comspec: Option<&str>) -> ShellEnv {
    ShellEnv {
        shell: None,
        ps_version_table: ps,
        term_program: term.map(|s| s.to_string()),
        comspec: comspec.map(|s| s.to_string()),
    }
}

#[test]
fn shell_is_last_path_segment() {
    assert_eq!(detect_shell(Platform::UnixLike, &unix_env(Some("/bin/zsh"))), "zsh");
    assert_eq!(detect_shell(Platform::UnixLike, &unix_env(Some("/usr/local/bin/fish"))), "fish");
    assert_eq!(detect_shell(Platform::UnixLike, &unix_env(Some("bash5"))), "bash5");
}

#[test]
fn shell_defaults_to_bash() {
    assert_eq!(detect_shell(Platform::UnixLike, &unix_env(None)), "bash");
    assert_eq!(detect_shell(Platform::UnixLike, &unix_env(Some(""))), "bash");
    assert_eq!(detect_shell(Platform::UnixLike, &unix_env(Some("/bin/"))), "bash");
}

#[test]
fn windows_shell_detection() {
    assert_eq!(detect_shell(Platform::Windows, &windows_env(true, None, Some("C:\\Windows\\cmd.exe"))), "powershell");
    assert_eq!(detect_shell(Platform::Windows, &windows_env(false, Some("Windows PowerShell"), Some("C:\\Windows\\cmd.exe"))), "powershell");
    assert_eq!(detect_shell(Platform::Windows, &windows_env(false, None, Some("C:\\WINDOWS\\system32\\CMD.EXE"))), "cmd");
    assert_eq!(detect_shell(Platform::Windows, &windows_env(false, Some("vscode"), None)), "powershell");
    assert_eq!(detect_shell(Platform::Windows, &windows_env(false, None, None)), "powershell");
}

#[test]
fn shell_never_empty_over_combinations() {
    let values = [None, Some(""), Some("/"), Some("/bin/sh"), Some("PowerShell"), Some("CMD")];
    for ps in [false, true] {
        for a in values {
            for b in values {
                assert!(!detect_shell(Platform::Windows, &windows_env(ps, a, b)).is_empty());
            }
            assert!(!detect_shell(Platform::UnixLike, &unix_env(a)).is_empty());
        }
    }
}

#[test]
fn os_names() {
    assert_eq!(detect_os("linux"), "Linux");
    assert_eq!(detect_os("macos"), "macOS");
    assert_eq!(detect_os("windows"), "Windows");
    assert_eq!(detect_os("freebsd"), "freebsd");
    assert_eq!(Platform::from_os("windows"), Platform::Windows);
    assert_eq!(Platform::from_os("linux"), Platform::UnixLike);
    assert_eq!(Platform::UnixLike.terminal_device(), "/dev/tty");
    assert_eq!(Platform::Windows.terminal_device(), "CONIN$");
    assert_eq!(Platform::UnixLike.shell_invocation(), ("sh", "-c"));
    assert_eq!(Platform::Windows.shell_invocation(), ("cmd", "/C"));
}

#[test]
fn generate_prompt_texts() {
    let (sys, user) = generate_command_prompt("列出文件", None, "Linux", "zsh");
    assert_eq!(
        sys,
        "你是一个命令行专家。用户当前使用的是 Linux 操作系统，zsh shell。根据用户的描述生成最适合当前环境的 shell 命令。只输出命令本身，不要有任何解释、注释或 markdown 格式。命令应该简洁、安全且可执行。"
    );
    assert_eq!(user, "描述: 列出文件");
    let (sys2, user2) = generate_command_prompt("列出文件", Some("a\nb"), "Linux", "zsh");
    assert_eq!(sys2, sys);
    assert_eq!(user2, "描述: 列出文件\n\n输入内容:\na\nb\n\n请生成处理上述内容的命令:");
    assert_eq!(generate_command_prompt("列出文件", Some("a\nb"), "Linux", "zsh"), (sys2, user2));
}

#[test]
fn explain_prompt_texts() {
    let (sys, user) = explain_command_prompt("ls -la", "macOS", "bash");
    assert!(sys.starts_with("你是一个命令行专家。用户当前使用的是 macOS 操作系统，bash shell。解释给定的 shell 命令"));
    assert!(sys.contains("禁止使用任何 markdown 格式"));
    assert_eq!(user, "请解释以下命令:\n\nls -la");
}

#[test]
fn chat_prompt_texts() {
    let (sys, user) = chat_mode_prompt("什么是 inode", None, "Linux", "bash");
    assert!(sys.starts_with("你是一个 helpful 的助手。用户当前使用的是 Linux 操作系统，bash shell。"));
    assert_eq!(user, "什么是 inode");
    let (sys2, user2) = chat_mode_prompt("分析日志", Some("error: x"), "Linux", "bash");
    assert_eq!(sys2, sys);
    assert_eq!(user2, "问题: 分析日志\n\n输入内容:\nerror: x");
}

#[test]
fn buffered_success_returns_first_content() {
    let body = r#"{"choices":[{"message":{"content":"ls -la"}}]}"#;
    let r = interpret_buffered(true, body, error_message(body), reply_contents(body));
    assert_eq!(r.ok(), Some("ls -la".to_string()));
}

#[test]
fn buffered_failure_status_reports_remote_message() {
    let body = r#"{"error":{"message":"invalid key"}}"#;
    let e = interpret_buffered(false, body, error_message(body), reply_contents(body)).err().unwrap();
    assert_eq!(e.kind, ApiErrorKind::Remote);
    assert!(e.message.contains("invalid key"));
}

#[test]
fn buffered_failure_status_with_raw_body() {
    let body = "Bad Gateway";
    let e = interpret_buffered(false, body, error_message(body), reply_contents(body)).err().unwrap();
    assert_eq!(e.kind, ApiErrorKind::Remote);
    assert_eq!(e.message, "Bad Gateway");
    let e2 = remote_error(body, None);
    assert_eq!(e2.message, "Bad Gateway");
}

#[test]
fn buffered_embedded_error_in_success() {
    let body = r#"{"error":{"message":"quota exceeded"}}"#;
    let e = interpret_buffered(true, body, error_message(body), reply_contents(body)).err().unwrap();
    assert_eq!(e.kind, ApiErrorKind::Remote);
    assert_eq!(e.message, "quota exceeded");
}

#[test]
fn buffered_without_choices_is_empty() {
    let body = r#"{"choices":[]}"#;
    assert_eq!(interpret_buffered(true, body, error_message(body), reply_contents(body)).ok(), Some(String::new()));
}

#[test]
fn buffered_bad_shape_is_parse_error() {
    let body = "not json";
    let e = interpret_buffered(true, body, error_message(body), reply_contents(body)).err().unwrap();
    assert_eq!(e.kind, ApiErrorKind::Parse);
}

#[test]
fn stream_accumulates_frames() {
    let text = "data: {\"choices\":[{\"delta\":{\"content\":\"he\"}}]}\n\ndata: {\"choices\":[{\"delta\":{\"content\":\"llo\"}}]}\ndata: [DONE]\n";
    let payloads = chunk_payloads(text.as_bytes());
    assert_eq!(payloads.len(), 2);
    let mut acc = StreamAccumulator::new();
    let mut shown = Vec::new();
    for p in &payloads {
        if let Some(s) = acc.accept(decode_frame(p)) {
            shown.push(s);
        }
    }
    assert_eq!(shown, vec!["he".to_string(), "llo".to_string()]);
    assert_eq!(acc.into_content(), "hello");
}

#[test]
fn stream_skips_malformed_frame() {
    let text = "data: {\"choices\":[{\"delta\":{\"content\":\"he\"}}]}\ndata: not-json\ndata: {\"choices\":[{\"delta\":{\"content\":\"llo\"}}]}\n";
    let payloads = text_payloads(text);
    assert_eq!(payloads.len(), 3);
    let frames: Vec<Frame> = payloads.iter().map(|p| decode_frame(p)).collect();
    assert!(matches!(frames[1], Frame::Malformed));
    let mut acc = StreamAccumulator::new();
    for f in frames {
        acc.accept(f);
    }
    assert_eq!(acc.into_content(), "hello");
}

#[test]
fn stream_frame_without_content_adds_nothing() {
    let mut acc = StreamAccumulator::new();
    assert!(acc.accept(decode_frame("{\"choices\":[{\"delta\":{\"role\":\"assistant\"}}]}")).is_none());
    assert!(acc.accept(decode_frame("{\"choices\":[]}")).is_none());
    assert_eq!(acc.into_content(), "");
}

#[test]
fn frame_payload_lines() {
    assert_eq!(frame_payload("  data: {\"a\":1}  "), Some("{\"a\":1}"));
    assert_eq!(frame_payload("data: [DONE]"), None);
    assert_eq!(frame_payload("   "), None);
    assert_eq!(frame_payload(": keep-alive"), None);
    assert_eq!(frame_payload("data:x"), None);
}

#[test]
fn chunk_with_invalid_utf8_is_decoded_lossily() {
    let mut bytes = b"data: a".to_vec();
    bytes.push(0xff);
    bytes.extend_from_slice(b"b\n");
    let payloads = chunk_payloads(&bytes);
    assert_eq!(payloads, vec!["a\u{fffd}b".to_string()]);
}

#[test]
fn config_defaults() {
    let c = Config::resolve(None, None, None, None);
    assert_eq!(c.api_key, "sk-aicmd");
    assert_eq!(c.api_url, "http://127.0.0.1:7888/proxy/direct/aigc/chat/completions");
    assert_eq!(c.model, "deepseek-chat");
}

#[test]
fn config_file_then_environment() {
    let file = "# settings\n\nMODEL = gpt-4\nAPI_URL=https://example.com/v1?a=b\nOTHER=1\nnoequals\n";
    let c = Config::resolve(Some(file), None, None, None);
    assert_eq!(c.model, "gpt-4");
    assert_eq!(c.api_url, "https://example.com/v1?a=b");
    assert_eq!(c.api_key, "sk-aicmd");
    let c2 = Config::resolve(Some(file), Some("k-env".to_string()), None, Some("env-model".to_string()));
    assert_eq!(c2.model, "env-model");
    assert_eq!(c2.api_key, "k-env");
    assert_eq!(c2.api_url, "https://example.com/v1?a=b");
}

#[test]
fn config_comment_and_crlf_lines() {
    let c = Config::resolve(Some("#MODEL=x\r\nAPI_KEY=abc\r\n"), None, None, None);
    assert_eq!(c.model, "deepseek-chat");
    assert_eq!(c.api_key, "abc");
}

#[test]
fn confirm_choices() {
    assert_eq!(parse_choice(""), InteractionChoice::Execute);
    assert_eq!(parse_choice("  \n"), parse_choice("e"));
    assert_eq!(parse_choice("EXEC"), InteractionChoice::Execute);
    assert_eq!(parse_choice("d"), InteractionChoice::Explain);
    assert!(!parse_choice("D").ends_loop());
    let q = parse_choice("Q");
    assert_eq!(q, InteractionChoice::Quit);
    assert!(q.ends_loop() && !q.runs_command());
    let x = parse_choice("x");
    assert_eq!(x, InteractionChoice::Invalid);
    assert!(x.ends_loop() && !x.runs_command());
    assert!(parse_choice("").runs_command());
    assert_eq!(choice_source(true), InputSource::Terminal);
    assert_eq!(choice_source(false), InputSource::Stdin);
}

#[test]
fn request_body_is_deterministic_and_ordered() {
    let a = request_body("sys \"x\"", "usr", "m", false);
    let b = request_body("sys \"x\"", "usr", "m", false);
    assert_eq!(a, b);
    assert_eq!(
        a,
        r#"{"model":"m","messages":[{"role":"system","content":"sys \"x\""},{"role":"user","content":"usr"}],"temperature":0.3,"stream":false}"#
    );
    let s = request_body("S", "U", "m", true);
    assert!(s.find("\"S\"").unwrap() < s.find("\"U\"").unwrap());
    assert!(s.ends_with("\"stream\":true}"));
}

#[test]
fn request_body_escapes_controls() {
    let b = request_body("a\tb\u{1}\\", "line\nnext", "m", false);
    assert!(b.contains(r#""content":"a\tb\u0001\\""#));
    assert!(b.contains(r#""content":"line\nnext""#));
    let r = ChatRequest::new("s", "u", "m", true);
    assert_eq!(r.to_json(), request_body("s", "u", "m", true));
}

#[test]
fn chat_request_fields() {
    let r = ChatRequest::new("s", "u", "m", true);
    assert_eq!(r.messages.len(), 2);
    assert_eq!(r.messages[0].role, Role::System);
    assert_eq!(r.messages[1].content, "u");
    assert_eq!(Role::Assistant.name(), "assistant");
}

#[test]
fn authorization_header() {
    assert_eq!(authorization_value("abc"), "Bearer abc");
}

#[test]
fn plan_requires_some_input() {
    let none: Vec<String> = vec![];
    assert!(matches!(plan_invocation(false, &none, None), Err(SessionError::NoInput)));
    assert!(matches!(plan_invocation(false, &none, Some("  \n".to_string())), Err(SessionError::NoInput)));
    let inv = plan_invocation(true, &none, Some("log\n".to_string())).ok().unwrap();
    assert_eq!(inv.mode, Mode::Chat);
    assert_eq!(inv.description, "");
    assert_eq!(inv.stdin_content, Some("log\n".to_string()));
    let args = vec!["find".to_string(), "big".to_string(), "files".to_string()];
    let inv2 = plan_invocation(false, &args, None).ok().unwrap();
    assert_eq!(inv2.mode, Mode::Command);
    assert_eq!(inv2.description, "find big files");
}

#[test]
fn description_and_piped_helpers() {
    assert_eq!(join_description(&vec!["a".to_string()]), "a");
    assert_eq!(join_description(&vec![]), "");
    assert_eq!(normalize_piped(Some("\t \n".to_string())), None);
    assert_eq!(normalize_piped(Some(" x ".to_string())), Some(" x ".to_string()));
    assert!(matches!(check_generated_command(String::new()), Err(SessionError::EmptyCommand)));
    assert_eq!(check_generated_command("ls".to_string()).ok(), Some("ls".to_string()));
}

#[test]
fn text_helpers() {
    assert_eq!(trim("\u{3000} a b \u{a0}\n"), "a b");
    assert!(contains("xx\"error\"yy", "\"error\""));
    assert!(!contains("errors", "\"error\""));
    assert!(contains("abc", ""));
}
