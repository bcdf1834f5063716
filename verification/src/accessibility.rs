//! The actor behind the accessibility panel of a debugging client. It
//! answers four kinds of message; for now each answer is a fixed one.
use vstd::prelude::*;
use vstd::string::StringExecFns;
use crate::actor::ActorError;

verus! {

/// What the actor answers. `from` is the actor's own name.
#[derive(Clone, Debug, PartialEq, Eq)]
pub enum Reply {
    /// Whether accessibility is enabled.
    Bootstrap { from: String, enabled: bool },
    /// The name of a new simulator actor.
    GetSimulator { from: String, simulator: String },
    /// What the actor supports.
    GetTraits { from: String, tabbing_order: bool },
    /// The name of a new walker actor.
    GetWalker { from: String, walker: String },
}

/// A reply, with its strings as sequences of characters.
pub ghost enum ReplyView {
    Bootstrap { from: Seq<char>, enabled: bool },
    GetSimulator { from: Seq<char>, simulator: Seq<char> },
    GetTraits { from: Seq<char>, tabbing_order: bool },
    GetWalker { from: Seq<char>, walker: Seq<char> },
}

impl View for Reply {
    type V = ReplyView;

    open spec fn view(&self) -> ReplyView {
        match *self {
            Reply::Bootstrap { from, enabled } => ReplyView::Bootstrap { from: from@, enabled },
            Reply::GetSimulator { from, simulator } => ReplyView::GetSimulator {
                from: from@,
                simulator: simulator@,
            },
            Reply::GetTraits { from, tabbing_order } => ReplyView::GetTraits {
                from: from@,
                tabbing_order,
            },
            Reply::GetWalker { from, walker } => ReplyView::GetWalker {
                from: from@,
                walker: walker@,
            },
        }
    }
}

pub struct AccessibilityActor {
    name: String,
}

impl View for AccessibilityActor {
    type V = Seq<char>;

    /// The actor's name.
    closed spec fn view(&self) -> Seq<char> {
        self.name@
    }
}

/// Whether `r` may be the answer of the actor named `from` to a message of
/// the kind `msg_type`, where `new_name` names new actors.
///
/// - `bootstrap`: accessibility is not enabled.
/// - `getSimulator`: a new name that begins with `simulator`.
/// - `getTraits`: the tabbing order is supported.
/// - `getWalker`: a new name that begins with `accesiblewalker`.
/// - Any other kind is not recognized.
pub open spec fn is_answer<N: Fn(&str) -> String>(
    from: Seq<char>,
    msg_type: Seq<char>,
    new_name: N,
    r: Result<Reply, ActorError>,
) -> bool {
    if msg_type == "bootstrap"@ {
        r is Ok && r->Ok_0@ == (ReplyView::Bootstrap { from, enabled: false })
    } else if msg_type == "getSimulator"@ {
        &&& r is Ok
        &&& r->Ok_0 is GetSimulator
        &&& r->Ok_0->GetSimulator_from@ == from
        &&& new_name.ensures(("simulator",), r->Ok_0->simulator)
    } else if msg_type == "getTraits"@ {
        r is Ok && r->Ok_0@ == (ReplyView::GetTraits { from, tabbing_order: true })
    } else if msg_type == "getWalker"@ {
        &&& r is Ok
        &&& r->Ok_0 is GetWalker
        &&& r->Ok_0->GetWalker_from@ == from
        &&& new_name.ensures(("accesiblewalker",), r->Ok_0->walker)
    } else {
        r == Err::<Reply, ActorError>(ActorError::UnrecognizedPacketType)
    }
}

impl AccessibilityActor {
    pub fn new(name: String) -> (r: Self)
        ensures
            r@ == name@,
    {
        Self { name }
    }

    /// The actor's name.
    pub fn name(&self) -> (r: String)
        ensures
            r@ == self@,
    {
        self.name.clone()
    }

    /// The answer to a message of the kind `msg_type`. `new_name` is asked
    /// for the name of each actor that the answer introduces, and for
    /// nothing else.
    pub fn handle_message<N: Fn(&str) -> String>(&self, msg_type: &str, new_name: &N) -> (r:
        Result<Reply, ActorError>)
        requires
            new_name.requires(("simulator",)),
            new_name.requires(("accesiblewalker",)),
        ensures
            is_answer(self@, msg_type@, *new_name, r),
    {
        let kind = String::from_str(msg_type);
        if kind == String::from_str("bootstrap") {
            Ok(Reply::Bootstrap { from: self.name(), enabled: false })
        } else if kind == String::from_str("getSimulator") {
            let simulator = new_name("simulator");
            Ok(Reply::GetSimulator { from: self.name(), simulator })
        } else if kind == String::from_str("getTraits") {
            Ok(Reply::GetTraits { from: self.name(), tabbing_order: true })
        } else if kind == String::from_str("getWalker") {
            let walker = new_name("accesiblewalker");
            Ok(Reply::GetWalker { from: self.name(), walker })
        } else {
            Err(ActorError::UnrecognizedPacketType)
        }
    }
}

} // verus!
