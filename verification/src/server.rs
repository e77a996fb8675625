//! The service as a whole: where it listens, what it answers to, how it opens its database.

use vstd::prelude::*;

use crate::store::{schema, schema_text};
use crate::text::{decimal, i32_to_string};

verus! {

/// How clients ask.
#[derive(Clone, Copy, Debug, PartialEq, Eq)]
pub enum Method {
    Get,
    Post,
}

/// What clients can ask of the service.
#[derive(Clone, Copy, Debug, PartialEq, Eq)]
pub enum Endpoint {
    Login,
    CurrentUser,
    Logout,
    LoginOptions,
    AddressBook,
    VerifySession,
}

impl Endpoint {
    /// The path of an endpoint.
    pub open spec fn path_text(self) -> Seq<char> {
        match self {
            Endpoint::Login => "/api/login"@,
            Endpoint::CurrentUser => "/api/currentUser"@,
            Endpoint::Logout => "/api/logout"@,
            Endpoint::LoginOptions => "/api/login-options"@,
            Endpoint::AddressBook => "/api/ab"@,
            Endpoint::VerifySession => "/api/verify-session"@,
        }
    }

    /// The path of an endpoint.
    pub fn path(self) -> (res: &'static str)
        ensures
            res@ == self.path_text(),
    {
        match self {
            Endpoint::Login => "/api/login",
            Endpoint::CurrentUser => "/api/currentUser",
            Endpoint::Logout => "/api/logout",
            Endpoint::LoginOptions => "/api/login-options",
            Endpoint::AddressBook => "/api/ab",
            Endpoint::VerifySession => "/api/verify-session",
        }
    }

    /// The methods by which an endpoint is asked.
    pub open spec fn method_list(self) -> Seq<Method> {
        match self {
            Endpoint::Login => seq![Method::Post],
            Endpoint::CurrentUser => seq![Method::Post],
            Endpoint::Logout => seq![Method::Post],
            Endpoint::LoginOptions => seq![Method::Get],
            Endpoint::AddressBook => seq![Method::Get, Method::Post],
            Endpoint::VerifySession => seq![Method::Post],
        }
    }

    /// The methods by which an endpoint is asked.
    pub fn methods(self) -> (res: Vec<Method>)
        ensures
            res@ == self.method_list(),
    {
        match self {
            Endpoint::Login => vec![Method::Post],
            Endpoint::CurrentUser => vec![Method::Post],
            Endpoint::Logout => vec![Method::Post],
            Endpoint::LoginOptions => vec![Method::Get],
            Endpoint::AddressBook => vec![Method::Get, Method::Post],
            Endpoint::VerifySession => vec![Method::Post],
        }
    }
}

/// The address that the service listens on: the given port of all interfaces.
pub fn listen_address(port: i32) -> (res: String)
    ensures
        res@ == "0.0.0.0:"@ + decimal(port as int),
{
    "0.0.0.0:".to_owned().concat(i32_to_string(port).as_str())
}

/// A step on the way to an open database.
#[derive(Debug)]
pub enum OpenStep {
    /// Create an empty file at this path.
    CreateFile(String),
    /// Connect to the database at this URL.
    Connect(String),
    /// Run these statements.
    Execute(&'static str),
}

/// An [`OpenStep`] as a mathematical value.
pub enum OpenStepView {
    CreateFile(Seq<char>),
    Connect(Seq<char>),
    Execute(Seq<char>),
}

impl View for OpenStep {
    type V = OpenStepView;

    open spec fn view(&self) -> OpenStepView {
        match *self {
            OpenStep::CreateFile(path) => OpenStepView::CreateFile(path@),
            OpenStep::Connect(url) => OpenStepView::Connect(url@),
            OpenStep::Execute(statements) => OpenStepView::Execute(statements@),
        }
    }
}

/// The steps that open the database at `path`. A file that is not there yet is created first.
pub open spec fn open_steps(path: Seq<char>, exists: bool) -> Seq<OpenStepView> {
    let open = seq![
        OpenStepView::Connect("sqlite://"@ + path),
        OpenStepView::Execute(schema_text()),
    ];
    if exists {
        open
    } else {
        seq![OpenStepView::CreateFile(path)] + open
    }
}

/// The steps that open the database at `path`, where a file may exist already.
pub fn open_db(path: &str, exists: bool) -> (res: Vec<OpenStep>)
    ensures
        res@.map_values(|step: OpenStep| step@) =~= open_steps(path@, exists),
{
    let mut steps: Vec<OpenStep> = Vec::new();
    if !exists {
        steps.push(OpenStep::CreateFile(path.to_owned()));
    }
    steps.push(OpenStep::Connect("sqlite://".to_owned().concat(path)));
    steps.push(OpenStep::Execute(schema()));
    steps
}

} // verus!
