//! The text side of the Copilot chat exchange: the system prompt, the
//! request's messages, the reading of the reply, and the extraction of the
//! JSON plan from a reply.
use vstd::prelude::*;
use crate::config::{Config, FamilyConfig};
use crate::text::{
    chars_of, decimal, find_first, find_last, first_match, last_index_of, lemma_first_match_at,
    lemma_first_match_none, lemma_last_index_at, lemma_occurrences_found, matches_at, push_decimal, string_of,
    trim_range, trim_view,
};

verus! {

/// Text of the system prompt, piece 0.
pub const SYSTEM_PROMPT_0: &'static str = "You are a specialized South Indian nutritionist and meal planner assistant for a Chennai-based developer family.\n\nFamily Profile:\n- ";

/// Text of the system prompt, piece 1.
pub const SYSTEM_PROMPT_1: &'static str = " adults (ages 30-37 years)\n- ";

/// Text of the system prompt, piece 2.
pub const SYSTEM_PROMPT_2: &'static str = " kids (ages 7-10 years)  \n- ";

/// Text of the system prompt, piece 3.
pub const SYSTEM_PROMPT_3: &'static str = " infant (age 2 years)\n- Cuisine: ";

/// Text of the system prompt, piece 4.
pub const SYSTEM_PROMPT_4: &'static str = " (";

/// Text of the system prompt, piece 5.
pub const SYSTEM_PROMPT_5: &'static str = "), specifically Chennai style\n\nDietary Preferences & Rules:\n- Protein sources allowed: ";

/// Text of the system prompt, piece 6.
pub const SYSTEM_PROMPT_6: &'static str = "\n- Diet focus: balanced nutrition appropriate for each age group\n- Breakfast: South Indian breakfast for everyone\n- Saturday morning: Pongal or Poori (traditional Saturday special)\n- Sunday: Non-vegetarian special dinner\n- Mid-week (Wednesday/Thursday): Chicken dinner\n- Mushroom dish: Include once per week\n- Kids' snacks: Mostly seasonal fruits\n- Kids' lunch: Nutritious, child-friendly South Indian meals\n- Dinner: South Indian style for the whole family\n- Infant (2yr): Soft, easily digestible foods adapted from family meals\n\nMeal Planning Guidelines:\n- Use traditional Chennai/Tamil Nadu recipes\n- Include a variety of dal/sambar, rice dishes, and curries\n- Balance between vegetarian and non-vegetarian meals\n- Include traditional breakfast items: idli, dosa, upma, pongal, poori, etc.\n- Use seasonal vegetables and local ingredients\n- Ensure adequate protein, calcium (dairy for kids), iron, and fiber\n\nOutput Format:\nWhen generating a weekly plan, provide a structured JSON response with days of the week, each containing:\n- breakfast: meal name and ingredients\n- kids_snack: fruit-based snack\n- kids_lunch: child-friendly meal\n- dinner: family dinner\n- special_notes: any special preparation notes\n\nAlways end with a consolidated shopping list grouped by category.";

/// The items of `list` joined by `sep` (Rust's `join`).
pub open spec fn join_view(list: Seq<Seq<char>>, sep: Seq<char>) -> Seq<char>
    decreases list.len(),
{
    if list.len() == 0 {
        Seq::empty()
    } else if list.len() == 1 {
        list[0]
    } else {
        join_view(list.drop_last(), sep) + sep + list.last()
    }
}

/// The items of `list` joined by `sep`.
pub fn join_strings(list: &Vec<String>, sep: &str) -> (r: String)
    ensures
        r@ == join_view(list@.map_values(|s: String| s@), sep@),
{
    let ghost lv = list@.map_values(|s: String| s@);
    let mut r = String::new();
    let mut i: usize = 0;
    while i < list.len()
        invariant
            i <= list@.len(),
            lv == list@.map_values(|s: String| s@),
            r@ == join_view(lv.take(i as int), sep@),
        decreases list.len() - i,
    {
        assert(lv.take(i + 1).drop_last() =~= lv.take(i as int));
        if i > 0 {
            r.append(sep);
        } else {
            assert(r@ + lv[0] =~= lv[0]);
        }
        r.append(list[i].as_str());
        i = i + 1;
    }
    assert(lv.take(list@.len() as int) =~= lv);
    r
}

/// The system prompt for a family.
pub open spec fn system_prompt_view(family: FamilyConfig) -> Seq<char> {
    SYSTEM_PROMPT_0@ + decimal(family.adults_count as nat) + SYSTEM_PROMPT_1@ + decimal(
        family.kids_count as nat,
    ) + SYSTEM_PROMPT_2@ + decimal(family.infant_count as nat) + SYSTEM_PROMPT_3@
        + family.cuisine@ + SYSTEM_PROMPT_4@ + family.region@ + SYSTEM_PROMPT_5@ + join_view(
        family.protein_preferences@.map_values(|s: String| s@),
        ", "@,
    ) + SYSTEM_PROMPT_6@
}

/// The system prompt that sets the assistant up as the family's South Indian
/// meal planner: family counts, cuisine and region, proteins and the weekly
/// rules.
pub fn build_system_prompt(family: &FamilyConfig) -> (r: String)
    ensures
        r@ == system_prompt_view(*family),
{
    let mut r = String::from_str(SYSTEM_PROMPT_0);
    push_decimal(&mut r, family.adults_count as u64);
    r.append(SYSTEM_PROMPT_1);
    push_decimal(&mut r, family.kids_count as u64);
    r.append(SYSTEM_PROMPT_2);
    push_decimal(&mut r, family.infant_count as u64);
    r.append(SYSTEM_PROMPT_3);
    r.append(family.cuisine.as_str());
    r.append(SYSTEM_PROMPT_4);
    r.append(family.region.as_str());
    r.append(SYSTEM_PROMPT_5);
    let proteins = join_strings(&family.protein_preferences, ", ");
    r.append(proteins.as_str());
    r.append(SYSTEM_PROMPT_6);
    r
}

/// One message of a chat.
#[derive(Debug, Clone)]
pub struct ChatMessage {
    pub role: String,
    pub content: String,
}

/// Why no reply could be had from the Copilot API.
#[derive(Debug, Clone, Copy, PartialEq, Eq, Structural)]
pub enum AiError {
    /// Neither the settings nor the environment hold a GitHub token.
    TokenMissing,
    /// The reply held no choice.
    NoResponse,
}

impl AiError {
    /// The message shown for the error.
    pub fn message(&self) -> (r: String)
        ensures
            *self == AiError::TokenMissing ==> r@ == TOKEN_MISSING_MESSAGE@,
            *self == AiError::NoResponse ==> r@ == "No response from AI"@,
    {
        match self {
            AiError::TokenMissing => String::from_str(TOKEN_MISSING_MESSAGE),
            AiError::NoResponse => String::from_str("No response from AI"),
        }
    }
}

/// The message shown when no GitHub token is configured.
pub const TOKEN_MISSING_MESSAGE: &'static str = "GitHub token not configured. Run `food-planner config --token <YOUR_GITHUB_TOKEN>` or set the GITHUB_TOKEN environment variable.";

/// What is sent to the chat completions endpoint.
pub struct ChatRequestParts {
    /// The endpoint: the API URL followed by `/chat/completions`.
    pub url: String,
    /// The token.
    pub token: String,
    /// The `Authorization` header: `Bearer ` and the token.
    pub authorization: String,
    /// The `Content-Type` header.
    pub content_type: String,
    /// The `Copilot-Integration-Id` header.
    pub integration_id: String,
    /// The most tokens the reply may hold.
    pub max_tokens: u32,
    /// The model asked for.
    pub model: String,
    /// The system prompt, then the user's prompt.
    pub messages: Vec<ChatMessage>,
}

/// The request for a weekly plan: the token from the settings or else
/// `env_token`, the endpoint, the model, and the system and user messages.
pub fn prepare_chat_request(config: &Config, env_token: Option<String>, prompt: &str) -> (r: Result<
    ChatRequestParts,
    AiError,
>)
    ensures
        (r is Err) <==> (config.ai.github_token is None && env_token is None),
        r is Err ==> r == Err::<ChatRequestParts, AiError>(AiError::TokenMissing),
        r matches Ok(p) ==> {
            &&& p.token@ == (match config.ai.github_token {
                Some(t) => t@,
                None => env_token->0@,
            })
            &&& p.authorization@ == "Bearer "@ + p.token@
            &&& p.content_type@ == "application/json"@
            &&& p.integration_id@ == "food-planner-cli"@
            &&& p.max_tokens == 4096
            &&& p.url@ == config.ai.copilot_api_url@ + "/chat/completions"@
            &&& p.model@ == config.ai.model@
            &&& p.messages@.len() == 2
            &&& p.messages@[0].role@ == "system"@
            &&& p.messages@[0].content@ == system_prompt_view(config.family)
            &&& p.messages@[1].role@ == "user"@
            &&& p.messages@[1].content@ == prompt@
        },
{
    let token = match config.get_token(env_token) {
        Some(t) => t,
        None => {
            return Err(AiError::TokenMissing);
        },
    };
    let system_prompt = build_system_prompt(&config.family);
    let messages = vec![
        ChatMessage { role: String::from_str("system"), content: system_prompt },
        ChatMessage { role: String::from_str("user"), content: String::from_str(prompt) },
    ];
    let url = config.ai.copilot_api_url.clone().concat("/chat/completions");
    let authorization = String::from_str("Bearer ").concat(token.as_str());
    Ok(ChatRequestParts {
        url,
        token,
        authorization,
        content_type: String::from_str("application/json"),
        integration_id: String::from_str("food-planner-cli"),
        max_tokens: 4096,
        model: config.ai.model.clone(),
        messages,
    })
}

/// Whether the reply can be read: a successful status goes on, any other
/// gives the message `API request failed with status <status>: <body>`.
pub fn check_reply_status(success: bool, status: &str, body: &str) -> (r: Result<(), String>)
    ensures
        success ==> r is Ok,
        !success ==> (r matches Err(m) && m@ == "API request failed with status "@ + status@
            + ": "@ + body@),
{
    if success {
        Ok(())
    } else {
        let m = String::from_str("API request failed with status ").concat(status).concat(
            ": ",
        ).concat(body);
        Err(m)
    }
}

/// The content of the first choice of a reply.
pub fn first_choice_content(choices: Vec<ChatMessage>) -> (r: Result<String, AiError>)
    ensures
        choices@.len() == 0 ==> r == Err::<String, AiError>(AiError::NoResponse),
        choices@.len() > 0 ==> r == Ok::<String, AiError>(choices@[0].content),
{
    let mut choices = choices;
    if choices.len() == 0 {
        Err(AiError::NoResponse)
    } else {
        let first = choices.remove(0);
        Ok(first.content)
    }
}

/// The trimmed inside of the first ```` ```json ```` block of a reply, where
/// that block is closed by a later ```` ``` ````.
pub open spec fn fenced_json_view(response: Seq<char>) -> Option<Seq<char>> {
    let start = first_match(response, "```json"@);
    let after = response.skip(start + "```json"@.len());
    let end = first_match(after, "```"@);
    if start >= 0 && end >= 0 {
        Some(trim_view(after.take(end)))
    } else {
        None
    }
}

/// The text of a reply from its first `{` to its last `}`, where the last
/// `}` comes after the first `{`.
pub open spec fn braced_json_view(response: Seq<char>) -> Option<Seq<char>> {
    let open = first_match(response, seq!['{']);
    let close = last_index_of(response, '}');
    if open >= 0 && close >= 0 && close > open {
        Some(response.subrange(open, close + 1))
    } else {
        None
    }
}

/// The JSON text in a reply: the fenced block, else the braced text, else
/// the whole reply.
pub open spec fn extract_json_view(response: Seq<char>) -> Seq<char> {
    match fenced_json_view(response) {
        Some(t) => t,
        None => match braced_json_view(response) {
            Some(t) => t,
            None => response,
        },
    }
}

/// When a reply holds a "```json" block closed by a later "```", the JSON
/// taken from it is the trimmed inside of the first such block, whatever
/// braces or other blocks occur elsewhere in the reply.
pub proof fn law_extract_json_first_fenced_block(response: Seq<char>, start: int, end: int)
    requires
        matches_at(response, "```json"@, start),
        forall|k: int| 0 <= k < start ==> !matches_at(response, "```json"@, k),
        start + 7 <= end,
        matches_at(response, "```"@, end),
        forall|k: int| start + 7 <= k < end ==> !matches_at(response, "```"@, k),
    ensures
        extract_json_view(response) == trim_view(response.subrange(start + 7, end)),
{
    reveal_strlit("```json");
    reveal_strlit("```");
    let fence = "```json"@;
    let close = "```"@;
    lemma_first_match_at(response, fence, start);
    let after = response.skip(start + fence.len());
    let e = end - start - 7;
    assert(after.subrange(e, e + 3) =~= response.subrange(end, end + 3));
    assert forall|k: int| 0 <= k < e implies !matches_at(after, close, k) by {
        assert(after.subrange(k, k + 3) =~= response.subrange(k + start + 7, k + start + 10));
        assert(!matches_at(response, close, k + start + 7));
    }
    lemma_first_match_at(after, close, e);
    assert(after.take(e) =~= response.subrange(start + 7, end));
}

/// A reply without any "```json" block gives the text from its first `{`
/// to its last `}`, where that `}` comes after the `{`.
pub proof fn law_extract_json_braced_text(response: Seq<char>, open: int, close: int)
    requires
        forall|k: int| !matches_at(response, "```json"@, k),
        0 <= open < close < response.len(),
        response[open] == '{',
        forall|k: int| 0 <= k < open ==> response[k] != '{',
        response[close] == '}',
        forall|k: int| close < k < response.len() ==> response[k] != '}',
    ensures
        extract_json_view(response) == response.subrange(open, close + 1),
{
    lemma_first_match_none(response, "```json"@);
    assert(matches_at(response, seq!['{'], open)) by {
        assert(response.subrange(open, open + 1) =~= seq!['{']);
    }
    assert forall|k: int| 0 <= k < open implies !matches_at(response, seq!['{'], k) by {
        if matches_at(response, seq!['{'], k) {
            assert(response.subrange(k, k + 1)[0] == response[k]);
        }
    }
    lemma_first_match_at(response, seq!['{'], open);
    lemma_last_index_at(response, '}', close);
}

/// A reply without any "```json" block and without a `{` followed later by
/// a `}` is taken whole.
pub proof fn law_extract_json_whole_reply(response: Seq<char>)
    requires
        forall|k: int| !matches_at(response, "```json"@, k),
        forall|i: int, j: int|
            0 <= i < j < response.len() ==> !(#[trigger] response[i] == '{' && #[trigger] response[j]
                == '}'),
    ensures
        extract_json_view(response) == response,
{
    lemma_first_match_none(response, "```json"@);
    lemma_occurrences_found(response, seq!['{'], '}');
    let open = first_match(response, seq!['{']);
    let close = last_index_of(response, '}');
    if open >= 0 && close >= 0 && close > open {
        assert(response.subrange(open, open + 1)[0] == response[open]);
        assert(response[open] == '{');
        assert(response[close] == '}');
        assert(!(response[open] == '{' && response[close] == '}'));
    }
}

fn fenced_json(cs: &Vec<char>) -> (r: Option<String>)
    ensures
        r matches Some(t) ==> fenced_json_view(cs@) == Some(t@),
        r is None ==> fenced_json_view(cs@) is None,
{
    let n = cs.len();
    let fence = chars_of("```json");
    match find_first(&cs, &fence) {
        Some(start) => {
            let from = start + fence.len();
            let after = copy_from(&cs, from);
            let close = chars_of("```");
            match find_first(&after, &close) {
                Some(end) => {
                    let r = trim_range(&after, 0, end);
                    assert(after@.subrange(0, end as int) =~= after@.take(end as int));
                    Some(r)
                },
                None => None,
            }
        },
        None => None,
    }
}

fn braced_json(cs: &Vec<char>) -> (r: Option<String>)
    ensures
        r matches Some(t) ==> braced_json_view(cs@) == Some(t@),
        r is None ==> braced_json_view(cs@) is None,
{
    let n = cs.len();
    let open_brace = vec!['{'];
    assert(open_brace@ =~= seq!['{']);
    let open = find_first(&cs, &open_brace);
    let close = find_last(&cs, '}');
    match (open, close) {
        (Some(a), Some(b)) => {
            if b > a {
                Some(string_of(&cs, a, b + 1))
            } else {
                None
            }
        },
        _ => None,
    }
}

/// Takes the JSON plan out of a reply that may wrap it in a Markdown block
/// or in other text (see `extract_json_view`).
pub fn extract_json(response: &str) -> (r: String)
    ensures
        r@ == extract_json_view(response@),
{
    let cs = chars_of(response);
    match fenced_json(&cs) {
        Some(t) => t,
        None => match braced_json(&cs) {
            Some(t) => t,
            None => String::from_str(response),
        },
    }
}

/// The characters `cs[from..]`.
fn copy_from(cs: &Vec<char>, from: usize) -> (r: Vec<char>)
    requires
        from <= cs@.len(),
    ensures
        r@ == cs@.skip(from as int),
{
    let mut r: Vec<char> = Vec::new();
    let mut i = from;
    while i < cs.len()
        invariant
            from <= i <= cs@.len(),
            r@ == cs@.subrange(from as int, i as int),
        decreases cs.len() - i,
    {
        r.push(cs[i]);
        assert(cs@.subrange(from as int, i + 1) =~= cs@.subrange(from as int, i as int).push(
            cs@[i as int],
        ));
        i = i + 1;
    }
    assert(cs@.subrange(from as int, i as int) =~= cs@.skip(from as int));
    r
}

/// Where the week's plan comes from when one is asked for.
#[derive(Debug, Clone, Copy, PartialEq, Eq, Structural)]
pub enum PlanSource {
    /// The built-in templates, as asked.
    Templates,
    /// The built-in templates, because no token is at hand; the user is told
    /// how to set one.
    TemplatesWithoutToken,
    /// The Copilot chat service, falling back to the templates if it fails.
    Copilot,
}

/// Picks the plan's source from the offline flag and whether a token is at
/// hand: the templates when asked for or when there is no token, else the
/// chat service.
pub fn choose_plan_source(offline: bool, token_available: bool) -> (r: PlanSource)
    ensures
        offline ==> r == PlanSource::Templates,
        !offline && !token_available ==> r == PlanSource::TemplatesWithoutToken,
        !offline && token_available ==> r == PlanSource::Copilot,
{
    if offline {
        PlanSource::Templates
    } else if !token_available {
        PlanSource::TemplatesWithoutToken
    } else {
        PlanSource::Copilot
    }
}

} // verus!
