use vstd::prelude::*;

verus! {

/// One line received from the server, the parser that reads it, and the
/// lines to send back.
pub struct ResponseContext<'l, TParser> {
    pub parser: &'l TParser,
    response_received: String,
    responses_to_send: Vec<String>,
}

impl<'l, TParser> ResponseContext<'l, TParser> {
    /// The parser that reads the line.
    pub closed spec fn spec_parser(&self) -> &'l TParser {
        self.parser
    }

    /// The line that was received.
    pub closed spec fn spec_received(&self) -> Seq<char> {
        self.response_received@
    }

    /// The lines queued to be sent back, in order.
    pub closed spec fn spec_replies(&self) -> Seq<Seq<char>> {
        self.responses_to_send.deep_view()
    }

    pub fn new(parser: &'l TParser, response_received: String) -> (context: ResponseContext<
        'l,
        TParser,
    >)
        ensures
            context.spec_parser() == parser,
            context.spec_received() == response_received@,
            context.spec_replies() == Seq::<Seq<char>>::empty(),
    {
        let context = ResponseContext { parser, response_received, responses_to_send: Vec::new() };
        assert(context.responses_to_send.deep_view() =~= Seq::<Seq<char>>::empty());
        context
    }

    pub fn get_received_response(&self) -> (response: String)
        ensures
            response@ == self.spec_received(),
    {
        self.response_received.clone()
    }

    pub fn get_responses_to_reply_with(&self) -> (replies: Vec<String>)
        ensures
            replies.deep_view() == self.spec_replies(),
    {
        let mut replies: Vec<String> = Vec::new();
        let mut i: usize = 0;
        while i < self.responses_to_send.len()
            invariant
                i <= self.responses_to_send.len(),
                replies.deep_view() == self.responses_to_send.deep_view().take(i as int),
            decreases self.responses_to_send.len() - i,
        {
            let ghost before = replies.deep_view();
            let reply = self.responses_to_send[i].clone();
            let ghost r = reply@;
            replies.push(reply);
            assert(replies.deep_view() =~= before.push(r));
            i = i + 1;
            assert(replies.deep_view() =~= self.responses_to_send.deep_view().take(i as int));
        }
        assert(self.responses_to_send.deep_view().take(i as int) =~= self.responses_to_send.deep_view());
        replies
    }

    pub fn add_response_to_reply_with(&mut self, reply: String)
        ensures
            final(self).spec_parser() == old(self).spec_parser(),
            final(self).spec_received() == old(self).spec_received(),
            final(self).spec_replies() == old(self).spec_replies().push(reply@),
    {
        let ghost before = self.responses_to_send.deep_view();
        self.responses_to_send.push(reply);
        assert(self.responses_to_send.deep_view() =~= before.push(reply@));
    }
}

} // verus!
