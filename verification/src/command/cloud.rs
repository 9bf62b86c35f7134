use vstd::prelude::*;
use vstd::string::StringExecFns;
use serde_json::Value;
use crate::error::Result;
use crate::fields::{
    array_at,
    array_field,
    either,
    key_or_alias,
    singleton,
    text_at,
    text_field,
    u32_at,
    u32_field,
};
use crate::json;
use crate::json::{empty_object, json_of, Json};
use crate::proto::{Request, Socket};
use crate::transport::{acknowledged, CachePolicy, Transport};

verus! {

/// The `Cloud` trait represents devices that can be bound to a cloud account.
///
/// A device model says with the five predicates below what the commands
/// guarantee; they are held to it. A model that says nothing guarantees
/// nothing.
pub trait Cloud {
    /// What holds of the device `self` and of the `answer` after the device
    /// `before` was asked for its cloud information.
    open spec fn cloud_asked(&self, before: &Self, answer: Result<CloudInfo>) -> bool {
        true
    }

    /// What holds of the device `self` and of the `answer` after the device
    /// `before` was asked for the firmware on offer.
    open spec fn firmware_asked(&self, before: &Self, answer: Result<Vec<String>>) -> bool {
        true
    }

    /// What holds of the device `self` and of the `answer` after the device
    /// `before` was asked to bind to an account.
    open spec fn bound(
        &self,
        before: &Self,
        username: Seq<char>,
        password: Seq<char>,
        answer: Result<()>,
    ) -> bool {
        true
    }

    /// What holds of the device `self` and of the `answer` after the device
    /// `before` was asked to unbind from its account.
    open spec fn unbound(&self, before: &Self, answer: Result<()>) -> bool {
        true
    }

    /// What holds of the device `self` and of the `answer` after the device
    /// `before` was pointed to the cloud server `url`.
    open spec fn server_set(&self, before: &Self, url: Seq<char>, answer: Result<()>) -> bool {
        true
    }

    fn get_cloud_info(&mut self) -> (answer: Result<CloudInfo>)
        ensures
            final(self).cloud_asked(old(self), answer),
    ;

    fn bind(&mut self, username: &str, password: &str) -> (answer: Result<()>)
        ensures
            final(self).bound(old(self), username@, password@, answer),
    ;

    fn unbind(&mut self) -> (answer: Result<()>)
        ensures
            final(self).unbound(old(self), answer),
    ;

    fn get_firmware_list(&mut self) -> (answer: Result<Vec<String>>)
        ensures
            final(self).firmware_asked(old(self), answer),
    ;

    fn set_server_url(&mut self, url: &str) -> (answer: Result<()>)
        ensures
            final(self).server_set(old(self), url@, answer),
    ;
}

/// What a device reports about its cloud connection.
#[derive(Debug)]
pub struct CloudInfo {
    pub binded: u32,
    pub cld_connection: u32,
    pub fw_dl_page: String,
    pub fw_notify_type: u32,
    pub illegal_type: u32,
    pub server: String,
    pub stop_connect: u32,
    pub tcsp_info: String,
    pub tcsp_status: u32,
    pub username: String,
}

impl CloudInfo {
    /// Whether `self` is the cloud information that `document` holds. Some
    /// fields may stand under a second name, in camel case.
    pub open spec fn describes(&self, document: Json) -> bool {
        &&& u32_at(document, "binded"@) == Some(self.binded)
        &&& u32_at(document, "cld_connection"@) == Some(self.cld_connection)
        &&& text_at(document, either(document, "fw_dl_page"@, "fwDlPage"@)) == Some(
            self.fw_dl_page@,
        )
        &&& u32_at(document, either(document, "fw_notify_type"@, "fwNotifyType"@)) == Some(
            self.fw_notify_type,
        )
        &&& u32_at(document, either(document, "illegal_type"@, "illegalType"@)) == Some(
            self.illegal_type,
        )
        &&& text_at(document, "server"@) == Some(self.server@)
        &&& u32_at(document, either(document, "stop_connect"@, "stopConnect"@)) == Some(
            self.stop_connect,
        )
        &&& text_at(document, either(document, "tcsp_info"@, "tcspInfo"@)) == Some(self.tcsp_info@)
        &&& u32_at(document, either(document, "tcsp_status"@, "tcspStatus"@)) == Some(
            self.tcsp_status,
        )
        &&& text_at(document, "username"@) == Some(self.username@)
    }

    /// Whether `document` can be read as cloud information.
    pub open spec fn readable(document: Json) -> bool {
        &&& u32_at(document, "binded"@) is Some
        &&& u32_at(document, "cld_connection"@) is Some
        &&& text_at(document, either(document, "fw_dl_page"@, "fwDlPage"@)) is Some
        &&& u32_at(document, either(document, "fw_notify_type"@, "fwNotifyType"@)) is Some
        &&& u32_at(document, either(document, "illegal_type"@, "illegalType"@)) is Some
        &&& text_at(document, "server"@) is Some
        &&& u32_at(document, either(document, "stop_connect"@, "stopConnect"@)) is Some
        &&& text_at(document, either(document, "tcsp_info"@, "tcspInfo"@)) is Some
        &&& u32_at(document, either(document, "tcsp_status"@, "tcspStatus"@)) is Some
        &&& text_at(document, "username"@) is Some
    }

    /// Reads the cloud information out of a reply.
    pub fn from_json(value: &Value) -> (r: Result<CloudInfo>)
        ensures
            match r {
                Ok(info) => info.describes(json_of(*value)),
                Err(e) => !CloudInfo::readable(json_of(*value)) && e.is_unexpected(),
            },
    {
        let binded = match u32_field(value, "binded") {
            Ok(n) => n,
            Err(e) => {
                return Err(e);
            },
        };
        let cld_connection = match u32_field(value, "cld_connection") {
            Ok(n) => n,
            Err(e) => {
                return Err(e);
            },
        };
        let fw_dl_page = match text_field(value, key_or_alias(value, "fw_dl_page", "fwDlPage")) {
            Ok(s) => s,
            Err(e) => {
                return Err(e);
            },
        };
        let fw_notify_type = match u32_field(
            value,
            key_or_alias(value, "fw_notify_type", "fwNotifyType"),
        ) {
            Ok(n) => n,
            Err(e) => {
                return Err(e);
            },
        };
        let illegal_type = match u32_field(
            value,
            key_or_alias(value, "illegal_type", "illegalType"),
        ) {
            Ok(n) => n,
            Err(e) => {
                return Err(e);
            },
        };
        let server = match text_field(value, "server") {
            Ok(s) => s,
            Err(e) => {
                return Err(e);
            },
        };
        let stop_connect = match u32_field(
            value,
            key_or_alias(value, "stop_connect", "stopConnect"),
        ) {
            Ok(n) => n,
            Err(e) => {
                return Err(e);
            },
        };
        let tcsp_info = match text_field(value, key_or_alias(value, "tcsp_info", "tcspInfo")) {
            Ok(s) => s,
            Err(e) => {
                return Err(e);
            },
        };
        let tcsp_status = match u32_field(value, key_or_alias(value, "tcsp_status", "tcspStatus")) {
            Ok(n) => n,
            Err(e) => {
                return Err(e);
            },
        };
        let username = match text_field(value, "username") {
            Ok(s) => s,
            Err(e) => {
                return Err(e);
            },
        };
        Ok(
            CloudInfo {
                binded,
                cld_connection,
                fw_dl_page,
                fw_notify_type,
                illegal_type,
                server,
                stop_connect,
                tcsp_info,
                tcsp_status,
                username,
            },
        )
    }

    /// The account that the device is bound to.
    pub fn username(&self) -> (username: &str)
        ensures
            username@ == self.username@,
    {
        self.username.as_str()
    }

    /// The cloud server that the device connects to.
    pub fn server(&self) -> (server: &str)
        ensures
            server@ == self.server@,
    {
        self.server.as_str()
    }

    /// Whether the device is bound to an account.
    pub fn bounded(&self) -> (bound: bool)
        ensures
            bound == (self.binded == 1),
    {
        self.binded == 1
    }
}

/// Whether `list` holds the firmware names of the reply `document`, in the
/// same order.
pub open spec fn firmware_list(list: Seq<String>, document: Json) -> bool {
    match array_at(document, "fw_list"@) {
        Some(items) => list.len() == items.len() && forall|i: int|
            0 <= i < list.len() ==> (#[trigger] items[i]).as_text() == Some(list[i]@),
        None => false,
    }
}

/// Whether `document` can be read as a list of firmware names.
pub open spec fn firmware_readable(document: Json) -> bool {
    match array_at(document, "fw_list"@) {
        Some(items) => forall|i: int| 0 <= i < items.len() ==> (#[trigger] items[i]) is Text,
        None => false,
    }
}

/// Reads the firmware names out of a reply.
pub fn firmware_names(value: &Value) -> (r: Result<Vec<String>>)
    ensures
        match r {
            Ok(list) => firmware_list(list@, json_of(*value)),
            Err(e) => !firmware_readable(json_of(*value)) && e.is_unexpected(),
        },
{
    let items = match array_field(value, "fw_list") {
        Ok(items) => items,
        Err(e) => {
            return Err(e);
        },
    };
    let ghost documents = array_at(json_of(*value), "fw_list"@).unwrap();
    let mut list: Vec<String> = Vec::new();
    let mut i: usize = 0;
    while i < items.len()
        invariant
            i <= items@.len(),
            array_at(json_of(*value), "fw_list"@) == Some(documents),
            documents == Seq::new(items@.len(), |k: int| json_of(items@[k])),
            list@.len() == i,
            forall|k: int| 0 <= k < i ==> (#[trigger] documents[k]).as_text() == Some(list@[k]@),
        decreases items@.len() - i,
    {
        match json::as_str(&items[i]) {
            Some(name) => {
                list.push(String::from_str(name));
            },
            None => {
                proof {
                    let listed = array_at(json_of(*value), "fw_list"@)->Some_0;
                    assert(!(listed[i as int] is Text));
                }
                return Err(crate::error::unexpected("fw_list"));
            },
        }
        i += 1;
    }
    Ok(list)
}

/// The argument of a bind: `{"username": .., "password": ..}`.
pub fn credentials(username: &str, password: &str) -> (arg: Value)
    ensures
        json_of(arg) == credentials_document(username@, password@),
{
    let mut arg = json::new_object();
    json::set_member(&mut arg, "username", json::from_str(username));
    json::set_member(&mut arg, "password", json::from_str(password));
    arg
}

/// The argument of a bind: `{"username": .., "password": ..}`.
pub open spec fn credentials_document(username: Seq<char>, password: Seq<char>) -> Json {
    empty_object().with("username"@, Json::Text(username)).with("password"@, Json::Text(password))
}

/// The argument that points a device to a cloud server: `{"server": ..}`.
pub open spec fn server_document(url: Seq<char>) -> Json {
    empty_object().with("server"@, Json::Text(url))
}

/// Whether `info` is what reading cloud information out of the `answer` of
/// the device gives: the information that the answer holds, or the error of
/// the exchange, or a serialization error for an answer that holds none.
pub open spec fn cloud_read(answer: Result<Value>, info: Result<CloudInfo>) -> bool {
    match answer {
        Err(e) => info matches Err(failed) && failed == e,
        Ok(value) => match info {
            Ok(found) => found.describes(json_of(value)),
            Err(e) => !CloudInfo::readable(json_of(value)) && e.is_unexpected(),
        },
    }
}

/// Whether `list` is what reading firmware names out of the `answer` of the
/// device gives.
pub open spec fn firmware_read(answer: Result<Value>, list: Result<Vec<String>>) -> bool {
    match answer {
        Err(e) => list matches Err(failed) && failed == e,
        Ok(value) => match list {
            Ok(found) => firmware_list(found@, json_of(value)),
            Err(e) => !firmware_readable(json_of(value)) && e.is_unexpected(),
        },
    }
}

/// The cloud commands of a device.
pub struct CloudSettings {
    ns: String,
}

impl CloudSettings {
    /// The namespace that the commands are addressed to.
    pub closed spec fn namespace(&self) -> Seq<char> {
        self.ns@
    }

    /// The cloud commands in the namespace `ns`.
    pub fn new(ns: &str) -> (settings: CloudSettings)
        ensures
            settings.namespace() == ns@,
    {
        CloudSettings { ns: String::from_str(ns) }
    }

    /// The cloud information of the device, from the cache while it is valid
    /// there.
    pub fn get_info<S: Socket>(&self, transport: &mut Transport<S>) -> (r: Result<CloudInfo>)
        ensures
            final(transport).executed(
                old(transport),
                CachePolicy::ReadThrough,
                self.namespace(),
                "get_info"@,
                Json::Null,
                |answer: Result<Value>, told: Result<CloudInfo>| cloud_read(answer, told),
                r,
            ),
            r matches Err(e) ==> e.is_io() || e.is_json(),
    {
        let request = Request::new(self.ns.as_str(), "get_info", None);
        match transport.execute(request, CachePolicy::ReadThrough) {
            Ok(response) => CloudInfo::from_json(&response),
            Err(e) => Err(e),
        }
    }

    /// Binds the device to an account. What is cached of the cloud namespace
    /// is dropped first.
    pub fn bind<S: Socket>(
        &self,
        transport: &mut Transport<S>,
        username: &str,
        password: &str,
    ) -> (r: Result<()>)
        ensures
            final(transport).executed(
                old(transport),
                CachePolicy::InvalidateNamespace,
                self.namespace(),
                "bind"@,
                credentials_document(username@, password@),
                |answer: Result<Value>, told: Result<()>| acknowledged(answer, told),
                r,
            ),
            r matches Err(e) ==> e.is_io() || e.is_json(),
    {
        let request = Request::new(self.ns.as_str(), "bind", Some(credentials(username, password)));
        match transport.execute(request, CachePolicy::InvalidateNamespace) {
            Ok(response) => Ok(()),
            Err(e) => Err(e),
        }
    }

    /// Unbinds the device from its account. What is cached of the cloud
    /// namespace is dropped first.
    pub fn unbind<S: Socket>(&self, transport: &mut Transport<S>) -> (r: Result<()>)
        ensures
            final(transport).executed(
                old(transport),
                CachePolicy::InvalidateNamespace,
                self.namespace(),
                "unbind"@,
                Json::Null,
                |answer: Result<Value>, told: Result<()>| acknowledged(answer, told),
                r,
            ),
            r matches Err(e) ==> e.is_io() || e.is_json(),
    {
        let request = Request::new(self.ns.as_str(), "unbind", None);
        match transport.execute(request, CachePolicy::InvalidateNamespace) {
            Ok(response) => Ok(()),
            Err(e) => Err(e),
        }
    }

    /// The firmware that the cloud offers the device, from the cache while it
    /// is valid there.
    pub fn get_firmware_list<S: Socket>(
        &self,
        transport: &mut Transport<S>,
    ) -> (r: Result<Vec<String>>)
        ensures
            final(transport).executed(
                old(transport),
                CachePolicy::ReadThrough,
                self.namespace(),
                "get_intl_fw_list"@,
                Json::Null,
                |answer: Result<Value>, told: Result<Vec<String>>| firmware_read(answer, told),
                r,
            ),
            r matches Err(e) ==> e.is_io() || e.is_json(),
    {
        let request = Request::new(self.ns.as_str(), "get_intl_fw_list", None);
        match transport.execute(request, CachePolicy::ReadThrough) {
            Ok(response) => firmware_names(&response),
            Err(e) => Err(e),
        }
    }

    /// Points the device to another cloud server. What is cached of the cloud
    /// namespace is dropped first.
    pub fn set_server_url<S: Socket>(
        &self,
        transport: &mut Transport<S>,
        url: &str,
    ) -> (r: Result<()>)
        ensures
            final(transport).executed(
                old(transport),
                CachePolicy::InvalidateNamespace,
                self.namespace(),
                "set_server_url"@,
                server_document(url@),
                |answer: Result<Value>, told: Result<()>| acknowledged(answer, told),
                r,
            ),
            r matches Err(e) ==> e.is_io() || e.is_json(),
    {
        let arg = singleton("server", json::from_str(url));
        let request = Request::new(self.ns.as_str(), "set_server_url", Some(arg));
        match transport.execute(request, CachePolicy::InvalidateNamespace) {
            Ok(response) => Ok(()),
            Err(e) => Err(e),
        }
    }
}

} // verus!
