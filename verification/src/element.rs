//! The decisions of an element handle: the functions it runs on the remote
//! element and the keystrokes it sends.
use vstd::prelude::*;
use crate::commands::{call_function_on, dispatch_char, is_command};
use crate::connection::client::CdpRequest;
use crate::text::{push_char, push_text};

verus! {

/// Clicks the element.
pub const CLICK_SCRIPT: &'static str = "function() { this.click(); }";

/// Moves the pointer over the element.
pub const HOVER_SCRIPT: &'static str = "function() { this.dispatchEvent(new MouseEvent('mouseover', { bubbles: true })); }";

/// Gives the element the focus.
pub const FOCUS_SCRIPT: &'static str = "function() { this.focus(); }";

/// Returns the rendered text of the element.
pub const TEXT_SCRIPT: &'static str = "function() { return this.innerText; }";

/// Returns the markup inside the element.
pub const INNER_HTML_SCRIPT: &'static str = "function() { return this.innerHTML; }";

/// The pause after each keystroke of typed text, in milliseconds.
pub const KEYSTROKE_DELAY_MS: u64 = 50;

/// The function that returns the attribute `name` of the element.
pub open spec fn attribute_script_text(name: Seq<char>) -> Seq<char> {
    "function() { return this.getAttribute('"@ + name + "'); }"@
}

/// The function that returns the attribute `name` of the element.
pub fn attribute_script(name: &str) -> (r: String)
    ensures
        r@ == attribute_script_text(name@),
{
    let mut s = "function() { return this.getAttribute('".to_owned();
    push_text(&mut s, name);
    push_text(&mut s, "'); }");
    s
}

/// A handle on an element of a page: the id of its remote object.
pub struct ElementRef {
    pub object_id: String,
}

impl ElementRef {
    /// The command that runs `script` with `this` bound to the element.
    pub fn call(&self, script: &str) -> (r: CdpRequest)
        ensures
            is_command(r, "Runtime.callFunctionOn"@, seq!["functionDeclaration"@, "objectId"@]),
            r.params.at("functionDeclaration"@).str_value() == Some(script@),
            r.params.at("objectId"@).str_value() == Some(self.object_id@),
    {
        call_function_on(script, self.object_id.as_str())
    }

    /// The commands that type `text` into the element: the element takes the
    /// focus first, then each character is typed as one keystroke.
    pub fn typing_commands(&self, text: &str) -> (r: Vec<CdpRequest>)
        ensures
            r@.len() == text@.len() + 1,
            is_command(r@[0], "Runtime.callFunctionOn"@, seq!["functionDeclaration"@, "objectId"@]),
            r@[0].params.at("functionDeclaration"@).str_value() == Some(FOCUS_SCRIPT@),
            r@[0].params.at("objectId"@).str_value() == Some(self.object_id@),
            forall|i: int|
                1 <= i < r@.len() ==> {
                    &&& is_command(
                        #[trigger] r@[i],
                        "Input.dispatchKeyEvent"@,
                        seq!["type"@, "text"@, "unmodifiedText"@],
                    )
                    &&& r@[i].params.at("type"@).str_value() == Some("char"@)
                    &&& r@[i].params.at("text"@).str_value() == Some(seq![text@[i - 1]])
                    &&& r@[i].params.at("unmodifiedText"@).str_value() == Some(seq![text@[i - 1]])
                },
    {
        let mut keys = typing_requests(text);
        let ghost typed = keys@;
        keys.insert(0, self.call(FOCUS_SCRIPT));
        assert forall|i: int| 1 <= i < keys@.len() implies keys@[i] == typed[i - 1] by {}
        keys
    }
}

/// The keystrokes that type `text`: one `char` key event per character, in
/// order, each carrying that character alone.
pub fn typing_requests(text: &str) -> (r: Vec<CdpRequest>)
    ensures
        r@.len() == text@.len(),
        forall|i: int|
            0 <= i < r@.len() ==> {
                &&& is_command(
                    #[trigger] r@[i],
                    "Input.dispatchKeyEvent"@,
                    seq!["type"@, "text"@, "unmodifiedText"@],
                )
                &&& r@[i].params.at("type"@).str_value() == Some("char"@)
                &&& r@[i].params.at("text"@).str_value() == Some(seq![text@[i]])
                &&& r@[i].params.at("unmodifiedText"@).str_value() == Some(seq![text@[i]])
            },
{
    let n = text.unicode_len();
    let mut out: Vec<CdpRequest> = Vec::new();
    let mut i: usize = 0;
    while i < n
        invariant
            n == text@.len(),
            i <= n,
            out@.len() == i,
            forall|j: int|
                0 <= j < i ==> {
                    &&& is_command(
                        #[trigger] out@[j],
                        "Input.dispatchKeyEvent"@,
                        seq!["type"@, "text"@, "unmodifiedText"@],
                    )
                    &&& out@[j].params.at("type"@).str_value() == Some("char"@)
                    &&& out@[j].params.at("text"@).str_value() == Some(seq![text@[j]])
                    &&& out@[j].params.at("unmodifiedText"@).str_value() == Some(seq![text@[j]])
                },
        decreases n - i,
    {
        let c = text.get_char(i);
        let mut one = String::new();
        push_char(&mut one, c);
        assert(one@ =~= seq![text@[i as int]]);
        out.push(dispatch_char(one.as_str()));
        i = i + 1;
    }
    out
}

} // verus!
