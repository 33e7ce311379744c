//! The top bar: the inputs of a request, and the decision when to send one.

use crate::fetch::{ControllerView, Dispatch, FetchController};
use crate::request::{Method, Request};
use vstd::prelude::*;

verus! {

/// The URL of a random image for a seed: the seed between a fixed prefix and
/// a fixed side length of 640 pixels.
pub open spec fn random_image_url(seed: Seq<char>) -> Seq<char> {
    "https://picsum.photos/seed/"@ + seed + "/640"@
}

/// The URL of the POST echo preset.
pub open spec fn post_echo_url() -> Seq<char> {
    "https://httpbin.org/post"@
}

/// The body that a request carries for the given inputs: the text as UTF-8
/// for a POST, nothing for a GET.
pub open spec fn body_for(method: Method, request_body: Seq<char>) -> Seq<u8> {
    match method {
        Method::Get => Seq::<u8>::empty(),
        Method::Post => vstd::utf8::encode_utf8(request_body),
    }
}

/// What the user did to the bar in one frame, beyond editing its fields.
pub struct BarInput {
    /// The URL field lost focus.
    pub url_committed: bool,
    /// The body field lost focus.
    pub body_committed: bool,
    /// "Random image" was clicked; the seed to put into the URL.
    pub random_image: Option<String>,
    /// "POST to httpbin.org" was clicked.
    pub post_to_httpbin: bool,
}

impl BarInput {
    /// The input asks for a fetch: a field was committed (the body field
    /// counts only while the method is POST) or a preset was clicked.
    pub open spec fn triggers(self, method: Method) -> bool {
        ||| self.url_committed
        ||| method == Method::Post && self.body_committed
        ||| self.random_image is Some
        ||| self.post_to_httpbin
    }

    /// The URL after the presets: the POST echo preset wins over the random
    /// image, and without a preset the URL stays.
    pub open spec fn url_after(self, url: Seq<char>) -> Seq<char> {
        if self.post_to_httpbin {
            post_echo_url()
        } else {
            match self.random_image {
                Some(seed) => random_image_url(seed@),
                None => url,
            }
        }
    }

    /// The method after the presets: the POST echo preset selects POST.
    pub open spec fn method_after(self, method: Method) -> Method {
        if self.post_to_httpbin {
            Method::Post
        } else {
            method
        }
    }
}

/// One frame of a bar with the given fields and controller: the bar after it
/// and the request it dispatched, if any.
pub open spec fn bar_step(
    url: Seq<char>,
    method: Method,
    request_body: Seq<char>,
    controller: ControllerView,
    input: BarInput,
    after: TopBar,
    dispatch: Option<Dispatch>,
) -> bool {
    &&& after.url@ == input.url_after(url)
    &&& after.method == input.method_after(method)
    &&& after.request_body@ == request_body
    &&& if input.triggers(method) && !controller.busy() {
        &&& dispatch matches Some(d)
        &&& after.in_progress@ == controller.started()
        &&& d.ticket == after.in_progress@.issued
        &&& d.request.spec_url() == after.url@
        &&& d.request.spec_method() == after.method
        &&& d.request.spec_body() == body_for(after.method, after.request_body@)
    } else {
        &&& dispatch is None
        &&& after.in_progress@ == controller
    }
}

/// The top bar: URL, method and POST body as the user edits them, and the
/// controller of the request they were sent with.
pub struct TopBar {
    pub url: String,
    pub method: Method,
    pub request_body: String,
    pub in_progress: FetchController,
}

impl Default for TopBar {
    /// Empty fields, GET, nothing outstanding.
    fn default() -> (bar: TopBar)
        ensures
            bar.url@.len() == 0,
            bar.method == Method::Get,
            bar.request_body@.len() == 0,
            bar.in_progress@ == (ControllerView {
                issued: 0,
                in_flight: None,
                arrived: None,
            }),
    {
        TopBar {
            url: String::new(),
            method: Method::Get,
            request_body: String::new(),
            in_progress: FetchController::new(),
        }
    }
}

impl TopBar {
    /// The panel's name.
    pub fn name(&self) -> (name: &'static str)
        ensures
            name@ == "Top Panel Bar"@,
    {
        "Top Panel Bar"
    }

    /// The request that the fields describe.
    pub fn request(&self) -> (request: Request)
        ensures
            request.spec_url() == self.url@,
            request.spec_method() == self.method,
            request.spec_body() == body_for(self.method, self.request_body@),
    {
        match self.method {
            Method::Get => Request::get(self.url.as_str()),
            Method::Post => Request::post(self.url.as_str(), self.request_body.as_str().as_bytes_vec()),
        }
    }

    /// One frame of the bar, after the user's edits are in the fields.
    /// Presets rewrite URL and method. If the input asks for a fetch and no
    /// request is outstanding, the request that the fields now describe is
    /// started and returned with its ticket. While a request is outstanding
    /// none is started.
    pub fn show(&mut self, input: &BarInput) -> (dispatch: Option<Dispatch>)
        requires
            old(self).in_progress@.issued < u64::MAX,
        ensures
            bar_step(
                old(self).url@,
                old(self).method,
                old(self).request_body@,
                old(self).in_progress@,
                *input,
                *final(self),
                dispatch,
            ),
    {
        let mut trigger = input.url_committed;
        if self.method == Method::Post && input.body_committed {
            trigger = true;
        }
        match &input.random_image {
            Some(seed) => {
                let mut url = "https://picsum.photos/seed/".to_owned();
                url.append(seed.as_str());
                url.append("/640");
                self.url = url;
                trigger = true;
            },
            None => {},
        }
        if input.post_to_httpbin {
            self.method = Method::Post;
            self.url = "https://httpbin.org/post".to_owned();
            trigger = true;
        }
        if trigger && !self.in_progress.is_busy() {
            let request = self.request();
            Some(self.in_progress.start(request))
        } else {
            None
        }
    }
}

} // verus!
