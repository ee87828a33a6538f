use vstd::prelude::*;

verus! {

/// The unit of exchange: one free-form text payload.
pub struct DcfMessage {
    pub data: String,
}

/// The mathematical content of a message.
pub struct MessageView {
    pub data: Seq<char>,
}

impl View for DcfMessage {
    type V = MessageView;

    open spec fn view(&self) -> MessageView {
        MessageView { data: self.data@ }
    }
}

/// The marker that every reply payload starts with.
pub open spec fn echo_marker() -> Seq<char> {
    seq!['E', 'c', 'h', 'o', ':', ' ']
}

/// The reply that the inbound handler owes to a request.
pub open spec fn reply_view(request: MessageView) -> MessageView {
    MessageView { data: echo_marker() + request.data }
}

impl DcfMessage {
    /// A message carrying `data` as its payload.
    pub fn new(data: &str) -> (r: DcfMessage)
        ensures
            r.data@ == data@,
    {
        DcfMessage { data: String::from_str(data) }
    }
}

impl Default for DcfMessage {
    fn default() -> (r: DcfMessage)
        ensures
            r.data@ == Seq::<char>::empty(),
    {
        DcfMessage { data: String::new() }
    }
}

impl Clone for DcfMessage {
    fn clone(&self) -> (r: DcfMessage)
        ensures
            r@ == self@,
    {
        DcfMessage { data: self.data.clone() }
    }
}

/// Answers an inbound request: the reply's payload is the echo marker
/// followed by the request's payload, and every other field is at its default.
pub fn send_message(request: DcfMessage) -> (r: DcfMessage)
    ensures
        r@ == reply_view(request@),
{
    let mut data = String::from_str("Echo: ");
    proof {
        reveal_strlit("Echo: ");
        assert(data@ =~= echo_marker());
    }
    data.append(request.data.as_str());
    DcfMessage { data }
}

/// Answering is a function of the request alone: equal requests get equal
/// replies, however often and in whatever order the handler is invoked.
pub proof fn reply_deterministic(a: MessageView, b: MessageView)
    requires
        a == b,
    ensures
        reply_view(a) == reply_view(b),
{
}

/// Replies never mix requests: distinct payloads get distinct replies, so
/// each reply reveals exactly the payload it answers.
pub proof fn reply_distinguishes(a: MessageView, b: MessageView)
    requires
        a.data != b.data,
    ensures
        reply_view(a).data != reply_view(b).data,
        reply_view(a).data.subrange(echo_marker().len() as int, reply_view(a).data.len() as int) == a.data,
{
    let m = echo_marker();
    assert((m + a.data).subrange(m.len() as int, (m + a.data).len() as int) =~= a.data);
    assert((m + b.data).subrange(m.len() as int, (m + b.data).len() as int) =~= b.data);
}

} // verus!
