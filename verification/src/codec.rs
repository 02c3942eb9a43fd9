//! Frame codec: maps the `Input`/`Output` unions onto a tagged structured
//! document, one frame per variant. The document is what a transport layer
//! serializes onto the wire; the codec guarantees that every variant
//! round-trips with all its payloads, and that an unknown tag is refused.

use vstd::prelude::*;

use crate::session::Input;
use crate::session::Object;
use crate::session::Output;
use crate::session::Request;

verus! {

/// Frame tag for `Output::Ready`.
pub const TAG_READY: u64 = 1;

/// Frame tag for `Output::Item`.
pub const TAG_ITEM: u64 = 2;

/// Frame tag for `Output::Done`.
pub const TAG_DONE: u64 = 3;

/// Frame tag for `Output::Reject`.
pub const TAG_REJECT: u64 = 4;

/// Frame tag for `Output::Suspended`.
pub const TAG_SUSPENDED: u64 = 5;

/// Frame tag for `Output::Fail`.
pub const TAG_FAIL: u64 = 6;

/// Frame tag for `Input::Call`.
pub const TAG_CALL: u64 = 11;

/// Frame tag for `Input::Resume`.
pub const TAG_RESUME: u64 = 12;

/// Frame tag for `Input::Next`.
pub const TAG_NEXT: u64 = 13;

/// Frame tag for `Input::Suspend`.
pub const TAG_SUSPEND: u64 = 14;

/// Frame tag for `Input::Cancel`.
pub const TAG_CANCEL: u64 = 15;

/// One wire frame: a discriminant tag and the payload slots the tagged
/// variant uses. Slots a variant does not use are left at their defaults.
#[derive(Clone, Debug, PartialEq)]
pub struct Frame {
    /// Which variant this frame carries.
    pub tag: u64,
    /// Text payload: a service name, or a reject/fail message.
    pub text: String,
    /// A task id, for `Suspended` and `Resume`.
    pub id: u32,
    /// A request or object payload.
    pub entries: Vec<(String, u64)>,
    /// Whether `Next` carries a payload.
    pub flag: bool,
}

/// How an output is laid out in a frame: the exact tag, the payload in its
/// slot, and every unused slot at its default.
pub open spec fn encodes_output(o: Output, f: Frame) -> bool {
    &&& match o {
        Output::Ready => f.tag == TAG_READY && f.entries@ == Seq::<(String, u64)>::empty()
            && f.text@ == Seq::<char>::empty(),
        Output::Item(x) => f.tag == TAG_ITEM && f.entries == x.entries && f.text@ == Seq::<
            char,
        >::empty(),
        Output::Done => f.tag == TAG_DONE && f.entries@ == Seq::<(String, u64)>::empty()
            && f.text@ == Seq::<char>::empty(),
        Output::Reject(m) => f.tag == TAG_REJECT && f.text == m && f.entries@ == Seq::<
            (String, u64),
        >::empty(),
        Output::Suspended(id) => f.tag == TAG_SUSPENDED && f.id == id && f.entries@ == Seq::<
            (String, u64),
        >::empty() && f.text@ == Seq::<char>::empty(),
        Output::Fail(m) => f.tag == TAG_FAIL && f.text == m && f.entries@ == Seq::<
            (String, u64),
        >::empty(),
    }
    &&& (o is Suspended || f.id == 0)
    &&& f.flag == false
}

/// How an input is laid out in a frame.
pub open spec fn encodes_input(i: Input, f: Frame) -> bool {
    &&& match i {
        Input::Call(name, q) => f.tag == TAG_CALL && f.text == name && f.entries == q.entries
            && f.flag == true,
        Input::Resume(id) => f.tag == TAG_RESUME && f.id == id && f.entries@ == Seq::<
            (String, u64),
        >::empty() && f.text@ == Seq::<char>::empty() && f.flag == false,
        Input::Next(q) => f.tag == TAG_NEXT && f.text@ == Seq::<char>::empty() && match q {
            Some(q) => f.flag == true && f.entries == q.entries,
            None => f.flag == false && f.entries@ == Seq::<(String, u64)>::empty(),
        },
        Input::Suspend => f.tag == TAG_SUSPEND && f.entries@ == Seq::<(String, u64)>::empty()
            && f.text@ == Seq::<char>::empty() && f.flag == false,
        Input::Cancel => f.tag == TAG_CANCEL && f.entries@ == Seq::<(String, u64)>::empty()
            && f.text@ == Seq::<char>::empty() && f.flag == false,
    }
    &&& (i is Resume || f.id == 0)
}

/// What a frame decodes to on the client side: the output its tag and
/// payload slots spell, or `None` for an unknown tag.
pub open spec fn output_of_frame(f: Frame) -> Option<Output> {
    if f.tag == TAG_READY {
        Some(Output::Ready)
    } else if f.tag == TAG_ITEM {
        Some(Output::Item(Object { entries: f.entries }))
    } else if f.tag == TAG_DONE {
        Some(Output::Done)
    } else if f.tag == TAG_REJECT {
        Some(Output::Reject(f.text))
    } else if f.tag == TAG_SUSPENDED {
        Some(Output::Suspended(f.id))
    } else if f.tag == TAG_FAIL {
        Some(Output::Fail(f.text))
    } else {
        None
    }
}

/// What a frame decodes to on the server side: the input its tag and payload
/// slots spell, or `None` for an unknown tag (surfaced as `Malformed`).
pub open spec fn input_of_frame(f: Frame) -> Option<Input> {
    if f.tag == TAG_CALL {
        Some(Input::Call(f.text, Request { entries: f.entries }))
    } else if f.tag == TAG_RESUME {
        Some(Input::Resume(f.id))
    } else if f.tag == TAG_NEXT {
        if f.flag {
            Some(Input::Next(Some(Request { entries: f.entries })))
        } else {
            Some(Input::Next(None))
        }
    } else if f.tag == TAG_SUSPEND {
        Some(Input::Suspend)
    } else if f.tag == TAG_CANCEL {
        Some(Input::Cancel)
    } else {
        None
    }
}

/// Serialize one output into its frame.
pub fn encode_output(o: Output) -> (f: Frame)
    ensures
        encodes_output(o, f),
{
    match o {
        Output::Ready => Frame {
            tag: TAG_READY,
            text: String::new(),
            id: 0,
            entries: Vec::new(),
            flag: false,
        },
        Output::Item(x) => Frame {
            tag: TAG_ITEM,
            text: String::new(),
            id: 0,
            entries: x.entries,
            flag: false,
        },
        Output::Done => Frame {
            tag: TAG_DONE,
            text: String::new(),
            id: 0,
            entries: Vec::new(),
            flag: false,
        },
        Output::Reject(m) => Frame {
            tag: TAG_REJECT,
            text: m,
            id: 0,
            entries: Vec::new(),
            flag: false,
        },
        Output::Suspended(id) => Frame {
            tag: TAG_SUSPENDED,
            text: String::new(),
            id,
            entries: Vec::new(),
            flag: false,
        },
        Output::Fail(m) => Frame {
            tag: TAG_FAIL,
            text: m,
            id: 0,
            entries: Vec::new(),
            flag: false,
        },
    }
}

/// Parse a frame as an output; `None` when the tag is unknown.
pub fn decode_output(f: Frame) -> (r: Option<Output>)
    ensures
        r == output_of_frame(f),
{
    let Frame { tag, text, id, entries, flag } = f;
    let _ = flag;
    if tag == TAG_READY {
        Some(Output::Ready)
    } else if tag == TAG_ITEM {
        Some(Output::Item(Object { entries }))
    } else if tag == TAG_DONE {
        Some(Output::Done)
    } else if tag == TAG_REJECT {
        Some(Output::Reject(text))
    } else if tag == TAG_SUSPENDED {
        Some(Output::Suspended(id))
    } else if tag == TAG_FAIL {
        Some(Output::Fail(text))
    } else {
        None
    }
}

/// Serialize one input into its frame.
pub fn encode_input(i: Input) -> (f: Frame)
    ensures
        encodes_input(i, f),
{
    match i {
        Input::Call(name, q) => Frame {
            tag: TAG_CALL,
            text: name,
            id: 0,
            entries: q.entries,
            flag: true,
        },
        Input::Resume(id) => Frame {
            tag: TAG_RESUME,
            text: String::new(),
            id,
            entries: Vec::new(),
            flag: false,
        },
        Input::Next(Some(q)) => Frame {
            tag: TAG_NEXT,
            text: String::new(),
            id: 0,
            entries: q.entries,
            flag: true,
        },
        Input::Next(None) => Frame {
            tag: TAG_NEXT,
            text: String::new(),
            id: 0,
            entries: Vec::new(),
            flag: false,
        },
        Input::Suspend => Frame {
            tag: TAG_SUSPEND,
            text: String::new(),
            id: 0,
            entries: Vec::new(),
            flag: false,
        },
        Input::Cancel => Frame {
            tag: TAG_CANCEL,
            text: String::new(),
            id: 0,
            entries: Vec::new(),
            flag: false,
        },
    }
}

/// Parse a frame as an input; `None` when the tag is unknown, which the
/// dispatcher surfaces as `Fail` with the `Malformed` message.
pub fn decode_input(f: Frame) -> (r: Option<Input>)
    ensures
        r == input_of_frame(f),
{
    let Frame { tag, text, id, entries, flag } = f;
    if tag == TAG_CALL {
        Some(Input::Call(text, Request { entries }))
    } else if tag == TAG_RESUME {
        Some(Input::Resume(id))
    } else if tag == TAG_NEXT {
        if flag {
            Some(Input::Next(Some(Request { entries })))
        } else {
            Some(Input::Next(None))
        }
    } else if tag == TAG_SUSPEND {
        Some(Input::Suspend)
    } else if tag == TAG_CANCEL {
        Some(Input::Cancel)
    } else {
        None
    }
}

/// Law: every output round-trips through its frame: whatever frame `encode`
/// lays the output out in, decoding that frame yields the output back.
pub proof fn lemma_output_round_trip(o: Output, f: Frame)
    requires
        encodes_output(o, f),
    ensures
        output_of_frame(f) == Some(o),
{
}

/// Law: every input round-trips through its frame, with all its payloads.
pub proof fn lemma_input_round_trip(i: Input, f: Frame)
    requires
        encodes_input(i, f),
    ensures
        input_of_frame(f) == Some(i),
{
}

} // verus!
