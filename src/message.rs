use vstd::prelude::*;

verus! {

/// One turn of a conversation.
pub struct Message {
    pub role: String,
    pub content: String,
    /// Where a user turn came from ("voice" or "text"), when known.
    pub source: Option<String>,
}

pub struct MessageView {
    pub role: Seq<char>,
    pub content: Seq<char>,
    pub source: Option<Seq<char>>,
}

pub open spec fn source_view(s: Option<String>) -> Option<Seq<char>> {
    match s {
        Some(t) => Some(t@),
        None => None,
    }
}

impl View for Message {
    type V = MessageView;

    open spec fn view(&self) -> MessageView {
        MessageView { role: self.role@, content: self.content@, source: source_view(self.source) }
    }
}

pub open spec fn messages_view(m: Seq<Message>) -> Seq<MessageView> {
    m.map_values(|x: Message| x@)
}

pub const PERSONA_PROMPT: &'static str =
    "Mày là Arisu có tính cách ngổ ngáo và tinh nghịch, 
        khi mày trả lời thì mày phải sử dụng ngôn ngữ tự nhiên 
        và bằng tiếng Việt, theo phong cách hội thoại. 
        Mày rất hỗn láo và không sợ làm mất lòng người khác.
        Vì thế nên câu trả lời của mày cụt lủn, 
        không cần có chủ ngũ vị ngữ, thể hiện sự mất dạy của mày.";

/// The system message that opens every conversation sent to the chat service.
pub open spec fn persona_view() -> MessageView {
    MessageView { role: "system"@, content: PERSONA_PROMPT@, source: None }
}

impl Message {
    /// A field-by-field copy.
    pub fn duplicate(&self) -> (r: Message)
        ensures
            r@ == self@,
    {
        let source = match &self.source {
            Some(s) => Some(s.clone()),
            None => None,
        };
        Message { role: self.role.clone(), content: self.content.clone(), source }
    }

    /// The system persona message.
    pub fn persona() -> (r: Message)
        ensures
            r@ == persona_view(),
    {
        proof {
            reveal_strlit("system");
        }
        Message {
            role: String::from_str("system"),
            content: String::from_str(PERSONA_PROMPT),
            source: None,
        }
    }
}

/// The conversation as transmitted: the persona message, then `messages` in
/// their order, unchanged. The caller's sequence is left as it was.
pub fn with_persona(messages: &Vec<Message>) -> (r: Vec<Message>)
    ensures
        messages_view(r@) == seq![persona_view()] + messages_view(messages@),
{
    let mut r: Vec<Message> = Vec::new();
    r.push(Message::persona());
    let mut i: usize = 0;
    while i < messages.len()
        invariant
            i <= messages@.len(),
            messages_view(r@) == seq![persona_view()] + messages_view(messages@.take(i as int)),
        decreases messages@.len() - i,
    {
        let m = messages[i].duplicate();
        let ghost before = r@;
        r.push(m);
        proof {
            assert(messages_view(r@) =~= messages_view(before).push(messages@[i as int]@));
            assert(messages_view(messages@.take(i + 1)) =~= messages_view(
                messages@.take(i as int),
            ).push(messages@[i as int]@));
            assert(messages@.take(i + 1) =~= messages@.take(i as int).push(messages@[i as int]));
            assert(messages_view(r@) =~= seq![persona_view()] + messages_view(
                messages@.take(i + 1),
            ));
        }
        i = i + 1;
    }
    proof {
        assert(messages@.take(messages@.len() as int) =~= messages@);
    }
    r
}

} // verus!
