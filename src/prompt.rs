//! Chat prompts in the OpenAI message format, with their token count.

use vstd::prelude::*;
use vstd::string::StringExecFns;

verus! {

/// Who speaks a message.
#[derive(Debug, Clone, Copy, PartialEq, Eq)]
pub enum PromptRole {
    System,
    User,
    Assistant,
}

/// The role's name in the message format.
pub open spec fn role_name(r: PromptRole) -> Seq<char> {
    match r {
        PromptRole::System => "system"@,
        PromptRole::User => "user"@,
        PromptRole::Assistant => "assistant"@,
    }
}

/// How message texts are joined.
#[derive(Debug, Clone)]
pub enum TextConcatenator {
    DoubleNewline,
    SingleNewline,
    Space,
    Comma,
    Custom(String),
}

impl Default for TextConcatenator {
    /// Texts are joined by a blank line.
    fn default() -> (r: Self)
        ensures
            r is DoubleNewline,
    {
        TextConcatenator::DoubleNewline
    }
}

/// One message of a prompt.
#[derive(Debug, Clone)]
pub struct PromptMessage {
    pub role: PromptRole,
    pub content: String,
}

/// Counts the tokens of a text the way a model's tokenizer does.
pub trait PromptTokenizer {
    fn count_tokens(&self, text: &str) -> u32;
}

/// A message as the API takes it: its role and its content.
pub open spec fn built_message(m: PromptMessage) -> Seq<(Seq<char>, Seq<char>)> {
    seq![("role"@, role_name(m.role)), ("content"@, m.content@)]
}

/// Key-value pairs as character sequences.
pub open spec fn pairs_view(m: Seq<(String, String)>) -> Seq<(Seq<char>, Seq<char>)> {
    m.map_values(|p: (String, String)| (p.0@, p.1@))
}

/// A built prompt as character sequences.
pub open spec fn built_view(b: Seq<Vec<(String, String)>>) -> Seq<Seq<(Seq<char>, Seq<char>)>> {
    b.map_values(|m: Vec<(String, String)>| pairs_view(m@))
}

/// The tokens that every reply is primed with.
pub const REPLY_PRIMING_TOKENS: u64 = 3;

/// The least token count of `n` messages at `per_message` tokens each, with
/// the reply priming, capped at `u64::MAX`: the tokens of the messages'
/// texts come on top.
pub open spec fn least_prompt_tokens(per_message: Option<u32>, n: nat) -> nat {
    let per: nat = match per_message {
        Some(k) => k as nat,
        None => 0,
    };
    let total: nat = per * n + REPLY_PRIMING_TOKENS as nat;
    if total > u64::MAX {
        u64::MAX as nat
    } else {
        total
    }
}

/// A chat prompt: its messages, and the last prompt built from them with
/// its token count.
pub struct OpenAIPrompt<T: PromptTokenizer> {
    pub built_prompt_hashmap: Option<Vec<Vec<(String, String)>>>,
    pub total_prompt_tokens: Option<u64>,
    pub concatenator: TextConcatenator,
    pub messages: Vec<PromptMessage>,
    pub tokenizer: T,
    pub tokens_per_message: Option<u32>,
    pub tokens_per_name: Option<i32>,
}

fn add_capped(a: u64, b: u64) -> (r: u64)
    ensures
        r == if a + b > u64::MAX {
            u64::MAX as int
        } else {
            a + b
        },
{
    if a > u64::MAX - b {
        u64::MAX
    } else {
        a + b
    }
}

impl<T: PromptTokenizer> OpenAIPrompt<T> {
    /// An empty prompt; nothing built yet.
    pub fn new(tokens_per_message: Option<u32>, tokens_per_name: Option<i32>, tokenizer: T) -> (r:
        Self)
        ensures
            r.built_prompt_hashmap is None,
            r.total_prompt_tokens is None,
            r.concatenator is DoubleNewline,
            r.messages@.len() == 0,
            r.tokenizer == tokenizer,
            r.tokens_per_message == tokens_per_message,
            r.tokens_per_name == tokens_per_name,
    {
        OpenAIPrompt {
            built_prompt_hashmap: None,
            total_prompt_tokens: None,
            concatenator: TextConcatenator::default(),
            messages: Vec::new(),
            tokenizer,
            tokens_per_message,
            tokens_per_name,
        }
    }

    /// Forgets the built prompt and its token count.
    pub fn clear_built_prompt(&mut self)
        ensures
            final(self).built_prompt_hashmap is None,
            final(self).total_prompt_tokens is None,
            final(self).messages == old(self).messages,
            final(self).concatenator == old(self).concatenator,
            final(self).tokenizer == old(self).tokenizer,
            final(self).tokens_per_message == old(self).tokens_per_message,
            final(self).tokens_per_name == old(self).tokens_per_name,
    {
        self.built_prompt_hashmap = None;
        self.total_prompt_tokens = None;
    }

    /// Builds the prompt from the messages, in order, and counts its tokens;
    /// both are kept until the next build or clear.
    pub fn build_prompt(&mut self) -> (r: Vec<Vec<(String, String)>>)
        ensures
            built_view(r@) == old(self).messages@.map_values(|m: PromptMessage| built_message(m)),
            final(self).built_prompt_hashmap matches Some(b) && built_view(b@) == built_view(r@),
            final(self).total_prompt_tokens matches Some(t) && t >= least_prompt_tokens(
                old(self).tokens_per_message,
                old(self).messages@.len(),
            ),
            final(self).messages == old(self).messages,
            final(self).concatenator == old(self).concatenator,
            final(self).tokenizer == old(self).tokenizer,
            final(self).tokens_per_message == old(self).tokens_per_message,
            final(self).tokens_per_name == old(self).tokens_per_name,
    {
        self.clear_built_prompt();
        let per: u64 = match self.tokens_per_message {
            Some(n) => n as u64,
            None => 0,
        };
        let ghost msgs = self.messages@;
        let ghost want = msgs.map_values(|m: PromptMessage| built_message(m));
        let mut built: Vec<Vec<(String, String)>> = Vec::new();
        let mut total: u64 = 0;
        let mut i: usize = 0;
        while i < self.messages.len()
            invariant
                i <= msgs.len(),
                msgs == self.messages@,
                want == msgs.map_values(|m: PromptMessage| built_message(m)),
                built@.len() == i,
                forall|k: int| 0 <= k < i ==> pairs_view(#[trigger] built@[k]@) == want[k],
                per as nat == match self.tokens_per_message {
                    Some(k) => k as nat,
                    None => 0nat,
                },
                total >= if per * i > u64::MAX {
                    u64::MAX as int
                } else {
                    per * i
                },
            decreases msgs.len() - i,
        {
            let m = &self.messages[i];
            let role: &'static str = match m.role {
                PromptRole::System => "system",
                PromptRole::User => "user",
                PromptRole::Assistant => "assistant",
            };
            proof {
                reveal_strlit("system");
                reveal_strlit("user");
                reveal_strlit("assistant");
            }
            let mut message: Vec<(String, String)> = Vec::new();
            message.push((String::from_str("role"), String::from_str(role)));
            message.push((String::from_str("content"), m.content.clone()));
            let t1 = self.tokenizer.count_tokens(role);
            let t2 = self.tokenizer.count_tokens(m.content.as_str());
            total = add_capped(total, per);
            total = add_capped(total, t1 as u64);
            total = add_capped(total, t2 as u64);
            assert(per * (i + 1) == per * i + per) by (nonlinear_arith);
            assert(pairs_view(message@) =~= built_message(msgs[i as int]));
            built.push(message);
            i = i + 1;
        }
        assert(built_view(built@) =~= want);
        total = add_capped(total, REPLY_PRIMING_TOKENS);
        let kept = clone_built(&built);
        self.built_prompt_hashmap = Some(kept);
        self.total_prompt_tokens = Some(total);
        built
    }
}

fn clone_built(b: &Vec<Vec<(String, String)>>) -> (r: Vec<Vec<(String, String)>>)
    ensures
        built_view(r@) == built_view(b@),
{
    let mut r: Vec<Vec<(String, String)>> = Vec::new();
    let mut i: usize = 0;
    while i < b.len()
        invariant
            i <= b@.len(),
            r@.len() == i,
            forall|k: int| 0 <= k < i ==> pairs_view(#[trigger] r@[k]@) == pairs_view(b@[k]@),
        decreases b@.len() - i,
    {
        let m = &b[i];
        let mut c: Vec<(String, String)> = Vec::new();
        let mut j: usize = 0;
        while j < m.len()
            invariant
                j <= m@.len(),
                m == &b@[i as int],
                c@.len() == j,
                forall|k: int|
                    0 <= k < j ==> (#[trigger] c@[k]).0@ == m@[k].0@ && c@[k].1@ == m@[k].1@,
            decreases m@.len() - j,
        {
            c.push((m[j].0.clone(), m[j].1.clone()));
            j = j + 1;
        }
        assert(pairs_view(c@) =~= pairs_view(m@));
        r.push(c);
        i = i + 1;
    }
    assert(built_view(r@) =~= built_view(b@));
    r
}

} // verus!
