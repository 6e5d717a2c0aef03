use crate::user::UserData;
use vstd::prelude::*;

verus! {

/// One line received from a server, the bot's own account, and the lines
/// to send back.
pub struct ResponseContext {
    client_data: UserData,
    response_received: String,
    responses_to_send: Vec<String>,
}

impl ResponseContext {
    /// The login of the bot's own account.
    pub closed spec fn spec_client_login(&self) -> Seq<char> {
        self.client_data.spec_login()
    }

    /// The numeric id of the bot's own account.
    pub closed spec fn spec_client_id(&self) -> u32 {
        self.client_data.spec_user_id()
    }

    /// The line that was received.
    pub closed spec fn spec_received(&self) -> Seq<char> {
        self.response_received@
    }

    /// The lines queued to be sent back, in order.
    pub closed spec fn spec_replies(&self) -> Seq<Seq<char>> {
        self.responses_to_send.deep_view()
    }

    pub fn new(client_data: UserData, response_received: String) -> (context: ResponseContext)
        ensures
            context.spec_client_login() == client_data.spec_login(),
            context.spec_client_id() == client_data.spec_user_id(),
            context.spec_received() == response_received@,
            context.spec_replies() == Seq::<Seq<char>>::empty(),
    {
        let context = ResponseContext { client_data, response_received, responses_to_send: Vec::new() };
        assert(context.responses_to_send.deep_view() =~= Seq::<Seq<char>>::empty());
        context
    }

    /// The line that was received.
    pub fn get_initial_response(&self) -> (response: String)
        ensures
            response@ == self.spec_received(),
    {
        self.response_received.clone()
    }

    /// A copy of the lines queued so far.
    pub fn get_responses_to_reply_with(&self) -> (replies: Vec<String>)
        ensures
            replies.deep_view() == self.spec_replies(),
    {
        let mut replies: Vec<String> = Vec::new();
        let mut i: usize = 0;
        while i < self.responses_to_send.len()
            invariant
                i <= self.responses_to_send.len(),
                replies.deep_view() == self.responses_to_send.deep_view().take(i as int),
            decreases self.responses_to_send.len() - i,
        {
            let ghost before = replies.deep_view();
            let reply = self.responses_to_send[i].clone();
            let ghost r = reply@;
            replies.push(reply);
            assert(replies.deep_view() =~= before.push(r));
            i = i + 1;
            assert(replies.deep_view() =~= self.responses_to_send.deep_view().take(i as int));
        }
        assert(self.responses_to_send.deep_view().take(i as int) =~= self.responses_to_send.deep_view());
        replies
    }

    /// Queues `reply` after the lines queued so far.
    pub fn add_response_to_reply_with(&mut self, reply: String)
        ensures
            final(self).spec_client_login() == old(self).spec_client_login(),
            final(self).spec_client_id() == old(self).spec_client_id(),
            final(self).spec_received() == old(self).spec_received(),
            final(self).spec_replies() == old(self).spec_replies().push(reply@),
    {
        let ghost before = self.responses_to_send.deep_view();
        let ghost r = reply@;
        self.responses_to_send.push(reply);
        assert(self.responses_to_send.deep_view() =~= before.push(r));
    }

    /// The bot's own account.
    pub fn get_client_user(&self) -> (client: UserData)
        ensures
            client.spec_login() == self.spec_client_login(),
            client.spec_user_id() == self.spec_client_id(),
    {
        self.client_data.clone()
    }
}

} // verus!
