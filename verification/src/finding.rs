//! The three faults that the lint finds in a call, and how each is reported.

use vstd::prelude::*;
use vstd::string::StringExecFns;
use crate::diagnostic::{Diagnostic, DiagnosticView, Label};
use crate::syntax::Range;

verus! {

/// An event that the class of an element does not have.
#[derive(Debug)]
pub struct InvalidEvent {
    pub class_name: String,
    pub event_name: String,
    pub range: Range,
}

/// A property that the class of an element does not have.
#[derive(Debug)]
pub struct InvalidProperty {
    pub class_name: String,
    pub property_name: String,
    pub range: Range,
}

/// A class name that the schema does not know.
#[derive(Debug)]
pub struct UnknownClass {
    pub name: String,
    pub range: Range,
}

pub struct InvalidEventView {
    pub class_name: Seq<char>,
    pub event_name: Seq<char>,
    pub range: Range,
}

pub struct InvalidPropertyView {
    pub class_name: Seq<char>,
    pub property_name: Seq<char>,
    pub range: Range,
}

pub struct UnknownClassView {
    pub name: Seq<char>,
    pub range: Range,
}

impl View for InvalidEvent {
    type V = InvalidEventView;

    open spec fn view(&self) -> InvalidEventView {
        InvalidEventView {
            class_name: self.class_name@,
            event_name: self.event_name@,
            range: self.range,
        }
    }
}

impl View for InvalidProperty {
    type V = InvalidPropertyView;

    open spec fn view(&self) -> InvalidPropertyView {
        InvalidPropertyView {
            class_name: self.class_name@,
            property_name: self.property_name@,
            range: self.range,
        }
    }
}

impl View for UnknownClass {
    type V = UnknownClassView;

    open spec fn view(&self) -> UnknownClassView {
        UnknownClassView { name: self.name@, range: self.range }
    }
}

/// The code under which invalid properties and unknown classes are reported.
pub open spec fn lint_code() -> Seq<char> {
    "roblox_incorrect_roact_usage"@
}

/// The code under which invalid events are reported.
pub open spec fn event_code() -> Seq<char> {
    "incorrect_roact_usage"@
}

impl InvalidEventView {
    pub open spec fn message(self) -> Seq<char> {
        "`"@ + self.event_name + "` is not a valid event for `"@ + self.class_name + "`"@
    }

    pub open spec fn diagnostic(self) -> DiagnosticView {
        DiagnosticView { code: event_code(), message: self.message(), range: self.range }
    }
}

impl InvalidPropertyView {
    pub open spec fn message(self) -> Seq<char> {
        "`"@ + self.property_name + "` is not a property of `"@ + self.class_name + "`"@
    }

    pub open spec fn diagnostic(self) -> DiagnosticView {
        DiagnosticView { code: lint_code(), message: self.message(), range: self.range }
    }
}

impl UnknownClassView {
    pub open spec fn message(self) -> Seq<char> {
        "`"@ + self.name + "` is not a valid class"@
    }

    pub open spec fn diagnostic(self) -> DiagnosticView {
        DiagnosticView { code: lint_code(), message: self.message(), range: self.range }
    }
}

impl InvalidEvent {
    /// The report of this event.
    pub fn diagnostic(&self) -> (diagnostic: Diagnostic)
        ensures
            diagnostic@ == self@.diagnostic(),
    {
        let mut message = String::from_str("`");
        message.append(self.event_name.as_str());
        message.append("` is not a valid event for `");
        message.append(self.class_name.as_str());
        message.append("`");
        Diagnostic::new("incorrect_roact_usage", message, Label::new(self.range))
    }
}

impl InvalidProperty {
    /// The report of this property.
    pub fn diagnostic(&self) -> (diagnostic: Diagnostic)
        ensures
            diagnostic@ == self@.diagnostic(),
    {
        let mut message = String::from_str("`");
        message.append(self.property_name.as_str());
        message.append("` is not a property of `");
        message.append(self.class_name.as_str());
        message.append("`");
        Diagnostic::new("roblox_incorrect_roact_usage", message, Label::new(self.range))
    }
}

impl UnknownClass {
    /// The report of this class name.
    pub fn diagnostic(&self) -> (diagnostic: Diagnostic)
        ensures
            diagnostic@ == self@.diagnostic(),
    {
        let mut message = String::from_str("`");
        message.append(self.name.as_str());
        message.append("` is not a valid class");
        Diagnostic::new("roblox_incorrect_roact_usage", message, Label::new(self.range))
    }
}

} // verus!
