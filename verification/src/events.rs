//! Page events: what a page reports (requests, responses, console
//! messages, errors, dialogs, navigations, lifecycle), made from the
//! protocol's raw events.
use vstd::prelude::*;

use crate::dialog::DialogType;
use crate::frame::opt_str;
use crate::http::{request_of, request_view, response_of, response_view, HTTPRequest, HTTPResponse, RequestView, ResponseView};
use crate::json::{
    as_array, as_i64, as_str, field, field_of, get, get_opt, i64_of, items_of, opt_val, str_of,
    string_of, to_value_text, value_text, JsonValue,
};
use crate::keyed::str_eq;

verus! {

/// The type of a console message.
#[derive(Debug, PartialEq, Eq)]
pub enum ConsoleMessageType {
    Log,
    Warning,
    Error,
    Info,
    Debug,
    Other(String),
}

/// What a [`ConsoleMessageType`] stands for.
pub enum ConsoleTypeView {
    Log,
    Warning,
    Error,
    Info,
    Debug,
    Other(Seq<char>),
}

/// The view of a console message type.
pub open spec fn console_type_view(t: ConsoleMessageType) -> ConsoleTypeView {
    match t {
        ConsoleMessageType::Log => ConsoleTypeView::Log,
        ConsoleMessageType::Warning => ConsoleTypeView::Warning,
        ConsoleMessageType::Error => ConsoleTypeView::Error,
        ConsoleMessageType::Info => ConsoleTypeView::Info,
        ConsoleMessageType::Debug => ConsoleTypeView::Debug,
        ConsoleMessageType::Other(s) => ConsoleTypeView::Other(s@),
    }
}

/// The console message type that the protocol's name stands for.
pub open spec fn console_type_of(s: Seq<char>) -> ConsoleTypeView {
    if s == "log"@ {
        ConsoleTypeView::Log
    } else if s == "warning"@ {
        ConsoleTypeView::Warning
    } else if s == "error"@ {
        ConsoleTypeView::Error
    } else if s == "info"@ {
        ConsoleTypeView::Info
    } else if s == "debug"@ {
        ConsoleTypeView::Debug
    } else {
        ConsoleTypeView::Other(s)
    }
}

/// The console message type for the protocol's name.
pub fn console_type_from(s: &str) -> (r: ConsoleMessageType)
    ensures
        console_type_view(r) == console_type_of(s@),
{
    if str_eq(s, "log") {
        ConsoleMessageType::Log
    } else if str_eq(s, "warning") {
        ConsoleMessageType::Warning
    } else if str_eq(s, "error") {
        ConsoleMessageType::Error
    } else if str_eq(s, "info") {
        ConsoleMessageType::Info
    } else if str_eq(s, "debug") {
        ConsoleMessageType::Debug
    } else {
        ConsoleMessageType::Other(s.to_owned())
    }
}

/// A console message from the page.
#[derive(Debug)]
pub struct ConsoleMessage {
    pub message_type: ConsoleMessageType,
    pub text: String,
    /// The source file of the call, from the first stack frame.
    pub url: Option<String>,
    pub line_number: Option<i64>,
    pub column_number: Option<i64>,
}

/// What a [`ConsoleMessage`] stands for.
pub struct ConsoleView {
    pub message_type: ConsoleTypeView,
    pub text: Seq<char>,
    pub url: Option<Seq<char>>,
    pub line_number: Option<i64>,
    pub column_number: Option<i64>,
}

/// The view of a console message.
pub open spec fn console_view(m: ConsoleMessage) -> ConsoleView {
    ConsoleView {
        message_type: console_type_view(m.message_type),
        text: m.text@,
        url: opt_str(m.url),
        line_number: m.line_number,
        column_number: m.column_number,
    }
}

/// A page event.
#[derive(Debug)]
pub enum PageEvent {
    Request(HTTPRequest),
    Response(HTTPResponse),
    Console(ConsoleMessage),
    /// The page threw an error that nothing caught.
    PageError(String),
    Dialog { dialog_type: DialogType, message: String },
    /// The page's main frame (a frame without a parent) navigated to a new URL.
    FrameNavigated { frame_id: String, url: String },
    /// The page was closed or crashed.
    Close,
    Load,
    DomContentLoaded,
}

/// What a [`PageEvent`] stands for.
pub enum PageEventView {
    Request(RequestView),
    Response(ResponseView),
    Console(ConsoleView),
    PageError(Seq<char>),
    Dialog { dialog_type: DialogType, message: Seq<char> },
    FrameNavigated { frame_id: Seq<char>, url: Seq<char> },
    Close,
    Load,
    DomContentLoaded,
}

/// The view of a page event.
pub open spec fn event_view(e: PageEvent) -> PageEventView {
    match e {
        PageEvent::Request(r) => PageEventView::Request(request_view(r)),
        PageEvent::Response(r) => PageEventView::Response(response_view(r)),
        PageEvent::Console(m) => PageEventView::Console(console_view(m)),
        PageEvent::PageError(s) => PageEventView::PageError(s@),
        PageEvent::Dialog { dialog_type, message } => PageEventView::Dialog { dialog_type, message: message@ },
        PageEvent::FrameNavigated { frame_id, url } => PageEventView::FrameNavigated {
            frame_id: frame_id@,
            url: url@,
        },
        PageEvent::Close => PageEventView::Close,
        PageEvent::Load => PageEventView::Load,
        PageEvent::DomContentLoaded => PageEventView::DomContentLoaded,
    }
}

/// The texts of the console arguments that carry a value, in order.
pub open spec fn arg_texts(args: Seq<JsonValue>) -> Seq<Seq<char>>
    decreases args.len(),
{
    if args.len() == 0 {
        Seq::empty()
    } else {
        let rest = arg_texts(args.drop_last());
        match field(args.last(), "value"@) {
            Some(v) => rest.push(value_text(v)),
            None => rest,
        }
    }
}

/// Texts joined with single spaces.
pub open spec fn join_spaces(parts: Seq<Seq<char>>) -> Seq<char>
    decreases parts.len(),
{
    if parts.len() == 0 {
        Seq::empty()
    } else if parts.len() == 1 {
        parts[0]
    } else {
        join_spaces(parts.drop_last()) + " "@ + parts.last()
    }
}

/// The first stack frame of a console call.
pub open spec fn first_frame(params: JsonValue) -> Option<JsonValue> {
    match items_of(field_of(field(params, "stackTrace"@), "callFrames"@)) {
        Some(frames) => if frames.len() > 0 {
            Some(frames[0])
        } else {
            None
        },
        None => None,
    }
}

/// The console message a console call describes; none when its type or
/// its argument list is missing.
pub open spec fn console_of(params: JsonValue) -> Option<ConsoleView> {
    let kind = str_of(field(params, "type"@));
    let args = items_of(field(params, "args"@));
    let frame = first_frame(params);
    if kind is Some && args is Some {
        Some(
            ConsoleView {
                message_type: console_type_of(kind->0),
                text: join_spaces(arg_texts(args->0)),
                url: str_of(field_of(frame, "url"@)),
                line_number: i64_of(field_of(frame, "lineNumber"@)),
                column_number: i64_of(field_of(frame, "columnNumber"@)),
            },
        )
    } else {
        None
    }
}

/// The description of a thrown exception: its `description` member, else
/// its `value`, when that is a string; "unknown error" otherwise.
pub open spec fn exception_text(params: JsonValue) -> Seq<char> {
    let ex = field_of(field(params, "exceptionDetails"@), "exception"@);
    let d = match field_of(ex, "description"@) {
        Some(x) => Some(x),
        None => field_of(ex, "value"@),
    };
    match str_of(d) {
        Some(s) => s,
        None => "unknown error"@,
    }
}

/// The dialog kind for the protocol's name, for the four names it uses.
pub open spec fn known_dialog_type(s: Seq<char>) -> Option<DialogType> {
    if s == "alert"@ {
        Some(DialogType::Alert)
    } else if s == "confirm"@ {
        Some(DialogType::Confirm)
    } else if s == "prompt"@ {
        Some(DialogType::Prompt)
    } else if s == "beforeunload"@ {
        Some(DialogType::BeforeUnload)
    } else {
        None
    }
}

/// The page event that a raw protocol event stands for, if any.
pub open spec fn page_event_of(method: Seq<char>, params: JsonValue) -> Option<PageEventView> {
    if method == "Network.requestWillBeSent"@ {
        match request_of(params, "type"@, false) {
            Some(r) => Some(PageEventView::Request(r)),
            None => None,
        }
    } else if method == "Network.responseReceived"@ {
        match response_of(params) {
            Some(r) => Some(PageEventView::Response(r)),
            None => None,
        }
    } else if method == "Runtime.consoleAPICalled"@ {
        match console_of(params) {
            Some(m) => Some(PageEventView::Console(m)),
            None => None,
        }
    } else if method == "Runtime.exceptionThrown"@ {
        Some(PageEventView::PageError(exception_text(params)))
    } else if method == "Page.javascriptDialogOpening"@ {
        let kind = str_of(field(params, "type"@));
        let message = str_of(field(params, "message"@));
        if kind is Some && known_dialog_type(kind->0) is Some && message is Some {
            Some(PageEventView::Dialog { dialog_type: known_dialog_type(kind->0)->0, message: message->0 })
        } else {
            None
        }
    } else if method == "Page.frameNavigated"@ {
        let frame = field(params, "frame"@);
        let id = str_of(field_of(frame, "id"@));
        let url = str_of(field_of(frame, "url"@));
        let parent = str_of(field_of(frame, "parentId"@));
        if id is Some && url is Some && parent is None {
            Some(PageEventView::FrameNavigated { frame_id: id->0, url: url->0 })
        } else {
            None
        }
    } else if method == "Page.lifecycleEvent"@ {
        match str_of(field(params, "name"@)) {
            Some(n) => if n == "load"@ {
                Some(PageEventView::Load)
            } else if n == "DOMContentLoaded"@ {
                Some(PageEventView::DomContentLoaded)
            } else {
                None
            },
            None => None,
        }
    } else if method == "Inspector.targetCrashed"@ {
        Some(PageEventView::Close)
    } else {
        None
    }
}

/// The text of a console call: the texts of the arguments that carry a
/// value, joined with single spaces.
pub fn console_text(args: &Vec<JsonValue>) -> (r: String)
    ensures
        r@ == join_spaces(arg_texts(args@)),
{
    let mut out = String::new();
    let mut started = false;
    let mut i: usize = 0;
    proof {
        assert(args@.take(0) =~= Seq::<JsonValue>::empty());
    }
    while i < args.len()
        invariant
            i <= args.len(),
            started == (arg_texts(args@.take(i as int)).len() > 0),
            out@ == join_spaces(arg_texts(args@.take(i as int))),
        decreases args.len() - i,
    {
        let ghost parts = arg_texts(args@.take(i as int));
        proof {
            assert(args@.take(i + 1).drop_last() =~= args@.take(i as int));
            assert(args@.take(i + 1).last() == args@[i as int]);
        }
        match get(&args[i], "value") {
            Some(v) => {
                let t = to_value_text(v);
                if started {
                    out = out.concat(" ");
                }
                out = out.concat(t.as_str());
                proof {
                    reveal_strlit(" ");
                    let np = parts.push(t@);
                    assert(np.drop_last() =~= parts);
                    if !started {
                        assert(out@ =~= t@);
                    }
                }
                started = true;
            },
            None => {},
        }
        i = i + 1;
    }
    proof {
        assert(args@.take(i as int) =~= args@);
    }
    out
}

/// The console message a console call describes.
fn console_from(params: &JsonValue) -> (r: Option<ConsoleMessage>)
    ensures
        match r {
            Some(m) => console_of(*params) == Some(console_view(m)),
            None => console_of(*params) is None,
        },
{
    let kind = as_str(get(params, "type"));
    let args = as_array(get(params, "args"));
    if kind.is_none() || args.is_none() {
        return None;
    }
    let frames = as_array(get_opt(get(params, "stackTrace"), "callFrames"));
    let frame: Option<&JsonValue> = match frames {
        Some(fs) => if fs.len() > 0 {
            Some(&fs[0])
        } else {
            None
        },
        None => None,
    };
    proof {
        assert(opt_val(frame) == first_frame(*params));
    }
    Some(
        ConsoleMessage {
            message_type: console_type_from(kind.unwrap().as_str()),
            text: console_text(args.unwrap()),
            url: string_of(get_opt(frame, "url")),
            line_number: as_i64(get_opt(frame, "lineNumber")),
            column_number: as_i64(get_opt(frame, "columnNumber")),
        },
    )
}

/// The description of a thrown exception.
fn exception_from(params: &JsonValue) -> (r: String)
    ensures
        r@ == exception_text(*params),
{
    let ex = get_opt(get(params, "exceptionDetails"), "exception");
    let d = match get_opt(ex, "description") {
        Some(x) => Some(x),
        None => get_opt(ex, "value"),
    };
    match as_str(d) {
        Some(s) => s.clone(),
        None => {
            proof {
                reveal_strlit("unknown error");
            }
            "unknown error".to_owned()
        },
    }
}

/// The dialog kind for the protocol's name, for the four names it uses.
fn known_dialog_from(s: &str) -> (r: Option<DialogType>)
    ensures
        r == known_dialog_type(s@),
{
    if str_eq(s, "alert") {
        Some(DialogType::Alert)
    } else if str_eq(s, "confirm") {
        Some(DialogType::Confirm)
    } else if str_eq(s, "prompt") {
        Some(DialogType::Prompt)
    } else if str_eq(s, "beforeunload") {
        Some(DialogType::BeforeUnload)
    } else {
        None
    }
}

/// The page event that a raw protocol event (its method and parameters)
/// stands for, if any.
pub fn convert_cdp_to_page_event(method: &str, params: &JsonValue) -> (r: Option<PageEvent>)
    ensures
        match r {
            Some(e) => page_event_of(method@, *params) == Some(event_view(e)),
            None => page_event_of(method@, *params) is None,
        },
{
    if str_eq(method, "Network.requestWillBeSent") {
        match HTTPRequest::from_cdp_event(params) {
            Some(r) => Some(PageEvent::Request(r)),
            None => None,
        }
    } else if str_eq(method, "Network.responseReceived") {
        match HTTPResponse::from_cdp_event(params) {
            Some(r) => Some(PageEvent::Response(r)),
            None => None,
        }
    } else if str_eq(method, "Runtime.consoleAPICalled") {
        match console_from(params) {
            Some(m) => Some(PageEvent::Console(m)),
            None => None,
        }
    } else if str_eq(method, "Runtime.exceptionThrown") {
        Some(PageEvent::PageError(exception_from(params)))
    } else if str_eq(method, "Page.javascriptDialogOpening") {
        let kind = as_str(get(params, "type"));
        let dialog_type = match kind {
            Some(k) => known_dialog_from(k.as_str()),
            None => None,
        };
        let message = string_of(get(params, "message"));
        match (dialog_type, message) {
            (Some(t), Some(m)) => Some(PageEvent::Dialog { dialog_type: t, message: m }),
            _ => None,
        }
    } else if str_eq(method, "Page.frameNavigated") {
        let frame = get(params, "frame");
        let id = string_of(get_opt(frame, "id"));
        let url = string_of(get_opt(frame, "url"));
        let child = as_str(get_opt(frame, "parentId")).is_some();
        match (id, url) {
            (Some(i), Some(u)) => if child {
                None
            } else {
                Some(PageEvent::FrameNavigated { frame_id: i, url: u })
            },
            _ => None,
        }
    } else if str_eq(method, "Page.lifecycleEvent") {
        match as_str(get(params, "name")) {
            Some(n) => if str_eq(n.as_str(), "load") {
                Some(PageEvent::Load)
            } else if str_eq(n.as_str(), "DOMContentLoaded") {
                Some(PageEvent::DomContentLoaded)
            } else {
                None
            },
            None => None,
        }
    } else if str_eq(method, "Inspector.targetCrashed") {
        Some(PageEvent::Close)
    } else {
        None
    }
}

} // verus!
