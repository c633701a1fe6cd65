use vstd::prelude::*;
use vstd::string::*;

verus! {

pub open spec fn text_of(o: Option<&str>) -> Option<Seq<char>> {
    match o {
        Some(s) => Some(s@),
        None => None,
    }
}

pub open spec fn environment_clause(os: Seq<char>, shell: Seq<char>) -> Seq<char> {
    "用户当前使用的是 "@ + os + " 操作系统，"@ + shell + " shell。"@
}

/// The (system, user) prompts that ask for a command doing what `description` says.
pub open spec fn generate_prompt(
    description: Seq<char>,
    stdin_content: Option<Seq<char>>,
    os: Seq<char>,
    shell: Seq<char>,
) -> (Seq<char>, Seq<char>) {
    let system = "你是一个命令行专家。"@ + environment_clause(os, shell)
        + "根据用户的描述生成最适合当前环境的 shell 命令。只输出命令本身，不要有任何解释、注释或 markdown 格式。命令应该简洁、安全且可执行。"@;
    let user = match stdin_content {
        Some(c) => "描述: "@ + description + "\n\n输入内容:\n"@ + c + "\n\n请生成处理上述内容的命令:"@,
        None => "描述: "@ + description,
    };
    (system, user)
}

/// The (system, user) prompts that ask for an explanation of `command`.
pub open spec fn explain_prompt(command: Seq<char>, os: Seq<char>, shell: Seq<char>) -> (
    Seq<char>,
    Seq<char>,
) {
    let system = "你是一个命令行专家。"@ + environment_clause(os, shell)
        + "解释给定的 shell 命令，包括每个参数的含义、命令的作用以及使用注意事项。用中文回答。禁止使用任何 markdown 格式（如代码块、加粗、列表等），使用纯文本格式输出，确保内容直观易读。"@;
    (system, "请解释以下命令:\n\n"@ + command)
}

/// The (system, user) prompts that put `question` to the model.
pub open spec fn chat_prompt(
    question: Seq<char>,
    stdin_content: Option<Seq<char>>,
    os: Seq<char>,
    shell: Seq<char>,
) -> (Seq<char>, Seq<char>) {
    let system = "你是一个 helpful 的助手。"@ + environment_clause(os, shell)
        + "请简洁、准确地回答用户的问题。用中文回答。禁止使用任何 markdown 格式（如代码块、加粗、列表、标题等），使用纯文本格式输出，确保内容直观易读。"@;
    let user = match stdin_content {
        Some(c) => "问题: "@ + question + "\n\n输入内容:\n"@ + c,
        None => question,
    };
    (system, user)
}

fn environment_text(r: &mut String, os_name: &str, shell_name: &str)
    ensures
        final(r)@ == old(r)@ + environment_clause(os_name@, shell_name@),
{
    r.append("用户当前使用的是 ");
    r.append(os_name);
    r.append(" 操作系统，");
    r.append(shell_name);
    r.append(" shell。");
}

/// The prompts for generating a command from `description`, with the piped input, if
/// any, for the command to process.
pub fn generate_command_prompt(
    description: &str,
    stdin_content: Option<&str>,
    os_name: &str,
    shell_name: &str,
) -> (r: (String, String))
    ensures
        (r.0@, r.1@) == generate_prompt(description@, text_of(stdin_content), os_name@, shell_name@),
{
    let mut system = String::from_str("你是一个命令行专家。");
    environment_text(&mut system, os_name, shell_name);
    system.append(
        "根据用户的描述生成最适合当前环境的 shell 命令。只输出命令本身，不要有任何解释、注释或 markdown 格式。命令应该简洁、安全且可执行。",
    );
    let mut user = String::from_str("描述: ");
    user.append(description);
    match stdin_content {
        Some(c) => {
            user.append("\n\n输入内容:\n");
            user.append(c);
            user.append("\n\n请生成处理上述内容的命令:");
        },
        None => {},
    }
    (system, user)
}

/// The prompts for explaining `command`.
pub fn explain_command_prompt(command: &str, os_name: &str, shell_name: &str) -> (r: (
    String,
    String,
))
    ensures
        (r.0@, r.1@) == explain_prompt(command@, os_name@, shell_name@),
{
    let mut system = String::from_str("你是一个命令行专家。");
    environment_text(&mut system, os_name, shell_name);
    system.append(
        "解释给定的 shell 命令，包括每个参数的含义、命令的作用以及使用注意事项。用中文回答。禁止使用任何 markdown 格式（如代码块、加粗、列表等），使用纯文本格式输出，确保内容直观易读。",
    );
    let mut user = String::from_str("请解释以下命令:\n\n");
    user.append(command);
    (system, user)
}

/// The prompts for answering `question`, with the piped input, if any, attached.
pub fn chat_mode_prompt(
    question: &str,
    stdin_content: Option<&str>,
    os_name: &str,
    shell_name: &str,
) -> (r: (String, String))
    ensures
        (r.0@, r.1@) == chat_prompt(question@, text_of(stdin_content), os_name@, shell_name@),
{
    let mut system = String::from_str("你是一个 helpful 的助手。");
    environment_text(&mut system, os_name, shell_name);
    system.append(
        "请简洁、准确地回答用户的问题。用中文回答。禁止使用任何 markdown 格式（如代码块、加粗、列表、标题等），使用纯文本格式输出，确保内容直观易读。",
    );
    let user = match stdin_content {
        Some(c) => {
            let mut u = String::from_str("问题: ");
            u.append(question);
            u.append("\n\n输入内容:\n");
            u.append(c);
            u
        },
        None => String::from_str(question),
    };
    (system, user)
}

/// Piped input changes the user prompt of a generated command only: the system prompt
/// depends on the environment alone.
pub proof fn generate_system_prompt_ignores_input(
    description: Seq<char>,
    other_description: Seq<char>,
    stdin_content: Option<Seq<char>>,
    os: Seq<char>,
    shell: Seq<char>,
)
    ensures
        generate_prompt(description, stdin_content, os, shell).0 == generate_prompt(
            other_description,
            None,
            os,
            shell,
        ).0,
{
}

/// Piped input changes the user prompt of a chat question only: the system prompt
/// depends on the environment alone.
pub proof fn chat_system_prompt_ignores_input(
    question: Seq<char>,
    other_question: Seq<char>,
    stdin_content: Option<Seq<char>>,
    os: Seq<char>,
    shell: Seq<char>,
)
    ensures
        chat_prompt(question, stdin_content, os, shell).0 == chat_prompt(
            other_question,
            None,
            os,
            shell,
        ).0,
{
}

} // verus!
