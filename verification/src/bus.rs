//! The calls that go over the session bus, and the link by which one process hands a connection
//! request to the one that is already running.

use crate::event::{is_url_event, url_event};
use vstd::prelude::*;
use vstd::string::*;

verus! {

/// The bus name of the running process, and the interface that it offers.
pub const DBUS_NAME: &'static str = "org.rustdesk.rustdesk";

/// The object that offers the interface.
pub const DBUS_PREFIX: &'static str = "/dbus";

/// The method that takes a connection request.
pub const DBUS_METHOD_NEW_CONNECTION: &'static str = "NewConnection";

/// The name of that method's argument.
pub const DBUS_METHOD_NEW_CONNECTION_ID: &'static str = "id";

/// The name of that method's result.
pub const DBUS_METHOD_RETURN: &'static str = "ret";

/// The result of that method where it went through.
pub const DBUS_METHOD_RETURN_SUCCESS: &'static str = "ok";

/// How long a call may take.
pub const DBUS_TIMEOUT_MILLIS: u64 = 5_000;

/// A method call with text arguments.
#[derive(Debug, PartialEq, Eq)]
pub struct MethodCall {
    pub destination: String,
    pub path: String,
    pub interface: String,
    pub member: String,
    pub arguments: Vec<String>,
}

/// What a `MethodCall` says.
#[verifier::ext_equal]
pub struct MethodCallView {
    pub destination: Seq<char>,
    pub path: Seq<char>,
    pub interface: Seq<char>,
    pub member: Seq<char>,
    pub arguments: Seq<Seq<char>>,
}

/// A call that takes no arguments.
pub(crate) fn plain_call(destination: &str, path: &str, interface: &str, member: &str) -> (call:
    MethodCall)
    ensures
        call@ == (MethodCallView {
            destination: destination@,
            path: path@,
            interface: interface@,
            member: member@,
            arguments: Seq::empty(),
        }),
{
    let call = MethodCall {
        destination: destination.to_owned(),
        path: path.to_owned(),
        interface: interface.to_owned(),
        member: member.to_owned(),
        arguments: Vec::new(),
    };
    assert(call@.arguments =~= Seq::<Seq<char>>::empty());
    call
}

impl MethodCall {
    /// How long the call may take.
    pub fn timeout_millis(&self) -> (millis: u64)
        ensures
            millis == DBUS_TIMEOUT_MILLIS,
            millis == 5_000,
    {
        DBUS_TIMEOUT_MILLIS
    }

    /// The call with one more argument.
    pub(crate) fn with_argument(self, argument: String) -> (call: MethodCall)
        ensures
            call@ == (MethodCallView { arguments: self@.arguments.push(argument@), ..self@ }),
    {
        let mut arguments = self.arguments;
        arguments.push(argument);
        let call = MethodCall {
            destination: self.destination,
            path: self.path,
            interface: self.interface,
            member: self.member,
            arguments,
        };
        assert(call@.arguments =~= self@.arguments.push(argument@));
        call
    }
}

impl View for MethodCall {
    type V = MethodCallView;

    open spec fn view(&self) -> MethodCallView {
        MethodCallView {
            destination: self.destination@,
            path: self.path@,
            interface: self.interface@,
            member: self.member@,
            arguments: self.arguments@.map_values(|argument: String| argument@),
        }
    }
}

/// The setting of a property to a number.
#[derive(Debug, PartialEq, Eq)]
pub struct PropertyChange {
    pub destination: String,
    pub path: String,
    pub interface: String,
    pub property: String,
    pub value: i32,
}

/// What a `PropertyChange` says.
pub struct PropertyChangeView {
    pub destination: Seq<char>,
    pub path: Seq<char>,
    pub interface: Seq<char>,
    pub property: Seq<char>,
    pub value: i32,
}

impl View for PropertyChange {
    type V = PropertyChangeView;

    open spec fn view(&self) -> PropertyChangeView {
        PropertyChangeView {
            destination: self.destination@,
            path: self.path@,
            interface: self.interface@,
            property: self.property@,
            value: self.value,
        }
    }
}

impl PropertyChange {
    /// How long the change may take.
    pub fn timeout_millis(&self) -> (millis: u64)
        ensures
            millis == DBUS_TIMEOUT_MILLIS,
            millis == 5_000,
    {
        DBUS_TIMEOUT_MILLIS
    }
}

/// A call that the other end did not carry out.
#[derive(Debug, PartialEq, Eq)]
pub struct DbusError(pub String);

impl DbusError {
    /// The error as a person reads it.
    pub fn message(&self) -> (text: String)
        ensures
            text@ == "SubnetDesk DBus Error: "@ + self.0@,
    {
        let mut text = "SubnetDesk DBus Error: ".to_owned();
        text.append(self.0.as_str());
        text
    }
}

/// A connection request on its way to the running process.
#[derive(Debug, PartialEq, Eq)]
pub struct NewConnection {
    /// The call to make.
    pub call: MethodCall,
}

/// The call that hands `uni_links` to the running process.
pub open spec fn new_connection_call(uni_links: Seq<char>) -> MethodCallView {
    MethodCallView {
        destination: DBUS_NAME@,
        path: DBUS_PREFIX@,
        interface: DBUS_NAME@,
        member: DBUS_METHOD_NEW_CONNECTION@,
        arguments: seq![uni_links],
    }
}

/// Whether `ret` says that a connection request went through.
pub open spec fn is_success(ret: Seq<char>) -> bool {
    ret == DBUS_METHOD_RETURN_SUCCESS@
}

/// Hands a connection request to the running process: the call is to be made, and what it returns
/// given to `NewConnection::complete`.
///
/// The same can be done by hand: `dbus-send --session --print-reply --dest=org.rustdesk.rustdesk
/// /dbus org.rustdesk.rustdesk.NewConnection string:'PEER_ID'`
pub fn invoke_new_connection(uni_links: String) -> (request: NewConnection)
    ensures
        request.call@ == new_connection_call(uni_links@),
        request.call.arguments@.len() == 1,
        request.call.arguments@[0]@ == uni_links@,
{
    let call = plain_call(
        DBUS_NAME,
        DBUS_PREFIX,
        DBUS_NAME,
        DBUS_METHOD_NEW_CONNECTION,
    ).with_argument(uni_links);
    assert(call@ =~= new_connection_call(uni_links@));
    assert(call@.arguments == seq![uni_links@]);
    assert(call@.arguments.len() == call.arguments@.len());
    assert(call@.arguments[0] == call.arguments@[0]@);
    NewConnection { call }
}

impl NewConnection {
    /// Takes what the call returned.
    pub fn complete(self, ret: String) -> (res: Result<(), DbusError>)
        ensures
            res is Ok <==> is_success(ret@),
            res is Ok <==> ret@ == "ok"@,
            res matches Err(error) ==> error.0@ == "not success"@,
    {
        if ret == DBUS_METHOD_RETURN_SUCCESS.to_owned() {
            Ok(())
        } else {
            Err(DbusError("not success".to_owned()))
        }
    }
}

/// What becomes of a connection request that came in.
#[derive(Debug, PartialEq, Eq)]
pub struct HandledMessage {
    /// The event for the main window.
    pub event: String,
    /// What the call returns.
    pub reply: String,
}

/// What a call with a connection request returns, whatever became of the request.
pub open spec fn new_connection_reply() -> Seq<char> {
    DBUS_METHOD_RETURN_SUCCESS@
}

/// Takes a connection request that came in over the bus.
pub fn handle_client_message(uni_links: &str) -> (handled: HandledMessage)
    ensures
        is_url_event(handled.event@, uni_links@),
        handled.reply@ == new_connection_reply(),
        handled.reply@ == "ok"@,
{
    HandledMessage {
        event: url_event(uni_links),
        reply: DBUS_METHOD_RETURN_SUCCESS.to_owned(),
    }
}

/// What a process returns to a connection request is what the process that made the request takes
/// for success.
pub proof fn handled_request_succeeds(ret: Seq<char>)
    requires
        ret == new_connection_reply(),
    ensures
        is_success(ret),
{
}

} // verus!
