//! The chat messages sent for a summary: templates and their variables.

use vstd::prelude::*;

verus! {

/// Built-in template of the system message.
pub const DEFAULT_SYSTEM_TEMPLATE: &'static str = "You summarize documents for a reader in a hurry. Write the summary in {{language}}. Keep the key facts, names and numbers, and leave out filler.";

/// Built-in template of the user message.
pub const DEFAULT_USER_TEMPLATE: &'static str = "Summarize the following content.\n\n{{{content}}}";

/// Who a chat message is from.
#[derive(Clone, Copy, Debug, PartialEq, Eq, Structural)]
pub enum ChatRole {
    System,
    User,
}

/// A chat message with its rendered text.
#[derive(Clone, Debug)]
pub struct ChatMessage {
    pub role: ChatRole,
    pub content: String,
}

/// A template could not be parsed or rendered.
#[derive(Clone, Copy, Debug, PartialEq, Eq, Structural)]
pub struct TemplateError;

/// Named template variables.
pub open spec fn vars_view(vars: Seq<(String, String)>) -> Seq<(Seq<char>, Seq<char>)> {
    vars.map_values(|p: (String, String)| (p.0@, p.1@))
}

/// What the handlebars engine renders from a template and named variables.
pub uninterp spec fn rendered(template: Seq<char>, vars: Seq<(Seq<char>, Seq<char>)>) -> Option<
    Seq<char>,
>;

/// Relies on `handlebars::Handlebars::render_template` with a fresh registry:
/// the rendered text, or an error where the template does not parse or
/// render. The variables are handed over as a map from name to value.
#[verifier::external_body]
fn render_template(template: &str, vars: &Vec<(String, String)>) -> (r: Option<String>)
    ensures
        r matches Some(s) ==> rendered(template@, vars_view(vars@)) == Some(s@),
        r is None ==> rendered(template@, vars_view(vars@)) is None,
{
    let map: std::collections::BTreeMap<&str, &str> =
        vars.iter().map(|(k, v)| (k.as_str(), v.as_str())).collect();
    handlebars::Handlebars::new().render_template(template, &map).ok()
}

/// Create a chat message from a template and variables.
pub fn create_message(role: ChatRole, template: &str, vars: &Vec<(String, String)>) -> (r: Result<
    ChatMessage,
    TemplateError,
>)
    ensures
        match rendered(template@, vars_view(vars@)) {
            Some(text) => r matches Ok(m) && m.role == role && m.content@ == text,
            None => r is Err,
        },
{
    match render_template(template, vars) {
        Some(content) => Ok(ChatMessage { role, content }),
        None => Err(TemplateError),
    }
}

/// Create the system and user messages, from the given template texts or the
/// built-in ones.
pub fn create_chat_messages(
    system_template: Option<&str>,
    user_template: Option<&str>,
    system_vars: &Vec<(String, String)>,
    user_vars: &Vec<(String, String)>,
) -> (r: Result<Vec<ChatMessage>, TemplateError>)
    ensures
        ({
            let st = match system_template {
                Some(t) => t@,
                None => DEFAULT_SYSTEM_TEMPLATE@,
            };
            let ut = match user_template {
                Some(t) => t@,
                None => DEFAULT_USER_TEMPLATE@,
            };
            match (rendered(st, vars_view(system_vars@)), rendered(ut, vars_view(user_vars@))) {
                (Some(s), Some(u)) => r matches Ok(v) && v@.len() == 2 && v@[0].role
                    == ChatRole::System && v@[0].content@ == s && v@[1].role == ChatRole::User
                    && v@[1].content@ == u,
                _ => r is Err,
            }
        }),
{
    let st = match system_template {
        Some(t) => t,
        None => DEFAULT_SYSTEM_TEMPLATE,
    };
    let ut = match user_template {
        Some(t) => t,
        None => DEFAULT_USER_TEMPLATE,
    };
    let system = match create_message(ChatRole::System, st, system_vars) {
        Ok(m) => m,
        Err(e) => return Err(e),
    };
    let user = match create_message(ChatRole::User, ut, user_vars) {
        Ok(m) => m,
        Err(e) => return Err(e),
    };
    let mut v: Vec<ChatMessage> = Vec::new();
    v.push(system);
    v.push(user);
    Ok(v)
}

/// Options to create chat messages
#[derive(Clone, Debug)]
pub struct ChatMessageOptions {
    /// Path to the system message template file; the built-in one otherwise.
    pub system_template: Option<String>,
    /// Path to the user message template file; the built-in one otherwise.
    pub user_template: Option<String>,
}

/// Language of the summary when none is given.
pub const DEFAULT_LANGUAGE: &'static str = "English";

/// Variables for chat message templates with system role
#[derive(Clone, Debug)]
pub struct SystemChatMessageVariables {
    /// Language for the summary
    pub language: String,
}

impl SystemChatMessageVariables {
    /// The variables as template variables.
    pub fn to_vars(&self) -> (r: Vec<(String, String)>)
        ensures
            vars_view(r@) == seq![("language"@, self.language@)],
    {
        let mut r: Vec<(String, String)> = Vec::new();
        r.push((String::from_str("language"), self.language.clone()));
        assert(vars_view(r@) =~= seq![("language"@, self.language@)]);
        r
    }
}

impl Default for SystemChatMessageVariables {
    fn default() -> (r: Self)
        ensures
            r.language@ == DEFAULT_LANGUAGE@,
    {
        SystemChatMessageVariables { language: String::from_str(DEFAULT_LANGUAGE) }
    }
}

} // verus!
