//! The capability that every detection strategy offers.

use vstd::prelude::*;

verus! {

/// What a detection service asks of its model backend: a system message that
/// sets the backend's behaviour and a user message that carries the payload of
/// one call.
#[derive(Debug, Clone)]
pub struct ChatRequest {
    pub system: String,
    pub user: String,
}

/// The two messages of a [`ChatRequest`] as sequences of characters.
pub struct ChatRequestView {
    pub system: Seq<char>,
    pub user: Seq<char>,
}

impl View for ChatRequest {
    type V = ChatRequestView;

    open spec fn view(&self) -> ChatRequestView {
        ChatRequestView { system: self.system@, user: self.user@ }
    }
}

/// A service that describes the components in a circuit photograph.
///
/// The service decides what the backend is asked; the exchange itself is the
/// caller's, handed in as `backend`. A caller that cannot block builds the
/// request, performs the exchange in its own way and reports the reply.
pub trait ComponentionDetectionService {
    /// The request that this service makes for the base64 payload `image`.
    spec fn request_spec(&self, image: Seq<char>) -> ChatRequestView;

    /// Describes the components in `base64_image`.
    ///
    /// `backend` is called once, with the request for this very image, and
    /// its reply is the result: the description as the backend gave it, or
    /// the backend's failure message word for word. Nothing is retried and
    /// nothing is made up in place of a failed reply.
    fn detect_components<B>(&self, base64_image: &str, backend: B) -> (result: Result<
        String,
        String,
    >) where B: FnOnce(ChatRequest) -> Result<String, String>
        requires
            forall|request: ChatRequest|
                request@ == self.request_spec(base64_image@) ==> call_requires(
                    backend,
                    (request,),
                ),
        ensures
            exists|request: ChatRequest|
                request@ == self.request_spec(base64_image@) && call_ensures(
                    backend,
                    (request,),
                    result,
                ),
    ;
}

} // verus!
