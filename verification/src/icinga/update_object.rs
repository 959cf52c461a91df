use vstd::prelude::*;
use crate::text::{contains_char, push_char, push_str, to_owned_string};
use crate::value::{FloatBits, ValueMap};

verus! {

/// The type of a checkable object.
#[derive(Clone, Copy, Debug, PartialEq, Eq, Structural)]
pub enum IcingaObjectType {
    Host,
    Service,
}

/// The parameters of the `config::UpdateObject` message, which creates an object in the
/// master: its name (`<host>[!<service>]`), its type, its version (0.0 for a new object), and
/// its configuration.
#[derive(Debug, PartialEq)]
pub struct UpdateObjectParams {
    pub name: String,
    pub object_type: IcingaObjectType,
    version: FloatBits,
    config: Option<String>,
    modified_attributes: Option<ValueMap>,
    original_attributes: Option<Vec<String>>,
    package: Option<String>,
}

/// The error of a creation of object parameters.
#[derive(Debug, PartialEq, Eq)]
pub enum UpdateObjectParamsCreationError {
    InvalidName(String),
}

impl UpdateObjectParamsCreationError {
    /// The message of the error.
    pub fn to_string(&self) -> (res: String)
        ensures
            res@ == creation_error_text(*self),
    {
        match self {
            UpdateObjectParamsCreationError::InvalidName(message) => {
                let mut res = String::new();
                push_str(&mut res, "UpdateObjectParamsCreationError::InvalidName: ");
                push_str(&mut res, message.as_str());
                res
            },
        }
    }
}

/// The message of `e`.
pub open spec fn creation_error_text(e: UpdateObjectParamsCreationError) -> Seq<char> {
    match e {
        UpdateObjectParamsCreationError::InvalidName(message) => "UpdateObjectParamsCreationError::InvalidName: "@ + message@,
    }
}

/// The prefix of the message that refuses a host name.
pub const INVALID_HOST_NAME: &'static str = "Invalid name for host. Object can not contain an exclamation point: ";

/// The prefix of the message that refuses a service name.
pub const INVALID_SERVICE_NAME: &'static str = "Invalid name for service. Object can not contain an exclamation point: ";

/// A builder of the parameters that create a host.
#[derive(Debug)]
pub struct UpdateHostParamsBuilder {
    name: String,
    pub zone: Option<String>,
    pub modified_attributes: Option<ValueMap>,
    pub original_attributes: Option<Vec<String>>,
    pub config: Option<String>,
}

/// A builder of the parameters that create a service.
#[derive(Debug)]
pub struct UpdateServiceParamsBuilder {
    name: String,
    host: String,
    pub modified_attributes: Option<ValueMap>,
    pub original_attributes: Option<Vec<String>>,
    pub config: Option<String>,
}

impl UpdateHostParamsBuilder {
    /// The name of the host to create.
    pub closed spec fn spec_name(self) -> Seq<char> {
        self.name@
    }

    /// The zone text.
    pub closed spec fn spec_zone(self) -> Option<String> {
        self.zone
    }

    /// The modified attributes.
    pub closed spec fn spec_modified_attributes(self) -> Option<ValueMap> {
        self.modified_attributes
    }

    /// The names of the original attributes.
    pub closed spec fn spec_original_attributes(self) -> Option<Vec<String>> {
        self.original_attributes
    }

    /// The configuration given to the builder.
    pub closed spec fn spec_config(self) -> Option<String> {
        self.config
    }

    /// Gives the host its own configuration.
    pub fn set_config(&mut self, config: Option<String>)
        ensures
            final(self).spec_config() == config,
            final(self).spec_name() == old(self).spec_name(),
            final(self).spec_zone() == old(self).spec_zone(),
            final(self).spec_modified_attributes() == old(self).spec_modified_attributes(),
            final(self).spec_original_attributes() == old(self).spec_original_attributes(),
    {
        self.config = config;
    }

    /// Sets the zone text.
    pub fn set_zone(&mut self, zone: Option<String>)
        ensures
            final(self).spec_zone() == zone,
            final(self).spec_name() == old(self).spec_name(),
            final(self).spec_config() == old(self).spec_config(),
            final(self).spec_modified_attributes() == old(self).spec_modified_attributes(),
            final(self).spec_original_attributes() == old(self).spec_original_attributes(),
    {
        self.zone = zone;
    }

    /// Sets the modified attributes.
    pub fn set_modified_attributes(&mut self, attributes: Option<ValueMap>)
        ensures
            final(self).spec_modified_attributes() == attributes,
            final(self).spec_name() == old(self).spec_name(),
            final(self).spec_zone() == old(self).spec_zone(),
            final(self).spec_config() == old(self).spec_config(),
            final(self).spec_original_attributes() == old(self).spec_original_attributes(),
    {
        self.modified_attributes = attributes;
    }

    /// Sets the names of the original attributes.
    pub fn set_original_attributes(&mut self, attributes: Option<Vec<String>>)
        ensures
            final(self).spec_original_attributes() == attributes,
            final(self).spec_name() == old(self).spec_name(),
            final(self).spec_zone() == old(self).spec_zone(),
            final(self).spec_config() == old(self).spec_config(),
            final(self).spec_modified_attributes() == old(self).spec_modified_attributes(),
    {
        self.original_attributes = attributes;
    }
}

impl UpdateServiceParamsBuilder {
    /// The name of the service to create: `<host>!<service>`.
    pub closed spec fn spec_name(self) -> Seq<char> {
        self.name@
    }

    /// The host of the service to create.
    pub closed spec fn spec_host(self) -> Seq<char> {
        self.host@
    }

    /// The modified attributes.
    pub closed spec fn spec_modified_attributes(self) -> Option<ValueMap> {
        self.modified_attributes
    }

    /// The names of the original attributes.
    pub closed spec fn spec_original_attributes(self) -> Option<Vec<String>> {
        self.original_attributes
    }

    /// The configuration given to the builder.
    pub closed spec fn spec_config(self) -> Option<String> {
        self.config
    }

    /// Gives the service its own configuration.
    pub fn set_config(&mut self, config: Option<String>)
        ensures
            final(self).spec_config() == config,
            final(self).spec_name() == old(self).spec_name(),
            final(self).spec_host() == old(self).spec_host(),
            final(self).spec_modified_attributes() == old(self).spec_modified_attributes(),
            final(self).spec_original_attributes() == old(self).spec_original_attributes(),
    {
        self.config = config;
    }

    /// Sets the modified attributes.
    pub fn set_modified_attributes(&mut self, attributes: Option<ValueMap>)
        ensures
            final(self).spec_modified_attributes() == attributes,
            final(self).spec_name() == old(self).spec_name(),
            final(self).spec_host() == old(self).spec_host(),
            final(self).spec_config() == old(self).spec_config(),
            final(self).spec_original_attributes() == old(self).spec_original_attributes(),
    {
        self.modified_attributes = attributes;
    }

    /// Sets the names of the original attributes.
    pub fn set_original_attributes(&mut self, attributes: Option<Vec<String>>)
        ensures
            final(self).spec_original_attributes() == attributes,
            final(self).spec_name() == old(self).spec_name(),
            final(self).spec_host() == old(self).spec_host(),
            final(self).spec_config() == old(self).spec_config(),
            final(self).spec_modified_attributes() == old(self).spec_modified_attributes(),
    {
        self.original_attributes = attributes;
    }
}

/// The configuration of a host created with no configuration of its own.
/// The zone is assigned on a line of its own when there is one.
pub open spec fn default_host_config(name: Seq<char>, zone: Option<String>) -> Seq<char> {
    "object Host \""@ + name + "\" {\n\tcheck_command = \"dummy\"\n"@ + match zone {
        Some(z) => "\tzone = \""@ + z@ + "\"\n"@,
        None => Seq::empty(),
    } + seq!['}']
}

/// The configuration of a service created with no configuration of its own.
pub open spec fn default_service_config(name: Seq<char>, host: Seq<char>) -> Seq<char> {
    "object Service \""@ + name + "\" {\n\thost_name = \""@ + host + "\"\n\tcheck_command = \"dummy\"\n}"@
}

impl UpdateObjectParams {
    /// The name of the object.
    pub closed spec fn spec_name(self) -> String {
        self.name
    }

    /// The type of the object.
    pub closed spec fn spec_object_type(self) -> IcingaObjectType {
        self.object_type
    }

    /// The version of the object.
    pub closed spec fn spec_version(self) -> FloatBits {
        self.version
    }

    /// The configuration of the object.
    pub closed spec fn spec_config(self) -> Option<String> {
        self.config
    }

    /// The attributes modified since the configuration.
    pub closed spec fn spec_modified_attributes(self) -> Option<ValueMap> {
        self.modified_attributes
    }

    /// The names of the original attributes.
    pub closed spec fn spec_original_attributes(self) -> Option<Vec<String>> {
        self.original_attributes
    }

    /// The configuration package of the object.
    pub closed spec fn spec_package(self) -> Option<String> {
        self.package
    }

    /// Parameters made of the given parts, as a received message holds them.
    pub fn from_parts(
        name: String,
        object_type: IcingaObjectType,
        version: FloatBits,
        config: Option<String>,
        modified_attributes: Option<ValueMap>,
        original_attributes: Option<Vec<String>>,
        package: Option<String>,
    ) -> (res: UpdateObjectParams)
        ensures
            res.spec_name() == name,
            res.spec_object_type() == object_type,
            res.spec_version() == version,
            res.spec_config() == config,
            res.spec_modified_attributes() == modified_attributes,
            res.spec_original_attributes() == original_attributes,
            res.spec_package() == package,
    {
        UpdateObjectParams {
            name,
            object_type,
            version,
            config,
            modified_attributes,
            original_attributes,
            package,
        }
    }

    /// The name of the object, taken out of the parameters.
    pub fn into_name(self) -> (res: String)
        ensures
            res == self.spec_name(),
    {
        self.name
    }

    /// The name of the object.
    pub fn name(&self) -> (res: &String)
        ensures
            *res == self.spec_name(),
    {
        &self.name
    }

    /// The type of the object.
    pub fn object_type(&self) -> (res: IcingaObjectType)
        ensures
            res == self.spec_object_type(),
    {
        self.object_type
    }

    /// The version of the object.
    pub fn version(&self) -> (res: FloatBits)
        ensures
            res == self.spec_version(),
    {
        self.version
    }

    /// The configuration of the object.
    pub fn config(&self) -> (res: &Option<String>)
        ensures
            *res == self.spec_config(),
    {
        &self.config
    }

    /// The attributes modified since the configuration.
    pub fn modified_attributes(&self) -> (res: &Option<ValueMap>)
        ensures
            *res == self.spec_modified_attributes(),
    {
        &self.modified_attributes
    }

    /// The names of the original attributes.
    pub fn original_attributes(&self) -> (res: &Option<Vec<String>>)
        ensures
            *res == self.spec_original_attributes(),
    {
        &self.original_attributes
    }

    /// The configuration package of the object.
    pub fn package(&self) -> (res: &Option<String>)
        ensures
            *res == self.spec_package(),
    {
        &self.package
    }

    /// A builder for the host `host`; refused when the name holds a `!`.
    pub fn create_host(host: &str) -> (res: Result<UpdateHostParamsBuilder, UpdateObjectParamsCreationError>)
        ensures
            host@.contains('!') <==> res is Err,
            match res {
                Ok(b) => b.spec_name() == host@ && b.spec_zone() is None && b.spec_modified_attributes() is None
                    && b.spec_original_attributes() is None && b.spec_config() is None,
                Err(UpdateObjectParamsCreationError::InvalidName(message)) => message@ == INVALID_HOST_NAME@ + host@,
            },
    {
        if contains_char(host, '!') {
            let mut message = String::new();
            push_str(&mut message, INVALID_HOST_NAME);
            push_str(&mut message, host);
            return Err(UpdateObjectParamsCreationError::InvalidName(message));
        }
        Ok(UpdateHostParamsBuilder {
            name: to_owned_string(host),
            zone: None,
            modified_attributes: None,
            original_attributes: None,
            config: None,
        })
    }

    /// A builder for the service `service` of the host `host`; refused when either name holds a
    /// `!` (the message names the host in both cases).
    pub fn create_service(host: &str, service: &str) -> (res: Result<UpdateServiceParamsBuilder, UpdateObjectParamsCreationError>)
        ensures
            (host@.contains('!') || service@.contains('!')) <==> res is Err,
            match res {
                Ok(b) => b.spec_name() == host@ + seq!['!'] + service@ && b.spec_host() == host@
                    && b.spec_modified_attributes() is None && b.spec_original_attributes() is None
                    && b.spec_config() is None,
                Err(UpdateObjectParamsCreationError::InvalidName(message)) => message@ == (if host@.contains('!') {
                    INVALID_HOST_NAME@
                } else {
                    INVALID_SERVICE_NAME@
                }) + host@,
            },
    {
        if contains_char(host, '!') {
            let mut message = String::new();
            push_str(&mut message, INVALID_HOST_NAME);
            push_str(&mut message, host);
            return Err(UpdateObjectParamsCreationError::InvalidName(message));
        }
        if contains_char(service, '!') {
            let mut message = String::new();
            push_str(&mut message, INVALID_SERVICE_NAME);
            push_str(&mut message, host);
            return Err(UpdateObjectParamsCreationError::InvalidName(message));
        }
        let mut name = String::new();
        push_str(&mut name, host);
        push_char(&mut name, '!');
        push_str(&mut name, service);
        Ok(UpdateServiceParamsBuilder {
            name,
            host: to_owned_string(host),
            modified_attributes: None,
            original_attributes: None,
            config: None,
        })
    }
}

impl UpdateServiceParamsBuilder {
    /// The parameters that create the service: its own configuration, or a default one with the
    /// `dummy` check command; version 0.0 and no package.
    pub fn build(self) -> (res: UpdateObjectParams)
        ensures
            res.spec_name()@ == self.spec_name(),
            res.spec_object_type() == IcingaObjectType::Service,
            res.spec_version() == (FloatBits { bits: 0 }),
            res.spec_config() is Some,
            res.spec_config()->0@ == match self.spec_config() {
                Some(c) => c@,
                None => default_service_config(self.spec_name(), self.spec_host()),
            },
            res.spec_modified_attributes() == self.spec_modified_attributes(),
            res.spec_original_attributes() == self.spec_original_attributes(),
            res.spec_package() is None,
    {
        let config = match self.config {
            None => {
                let mut c = String::new();
                push_str(&mut c, "object Service \"");
                push_str(&mut c, self.name.as_str());
                push_str(&mut c, "\" {\n\thost_name = \"");
                push_str(&mut c, self.host.as_str());
                push_str(&mut c, "\"\n\tcheck_command = \"dummy\"\n}");
                c
            },
            Some(config) => config,
        };
        UpdateObjectParams {
            name: self.name,
            object_type: IcingaObjectType::Service,
            version: FloatBits { bits: 0 },
            config: Some(config),
            modified_attributes: self.modified_attributes,
            original_attributes: self.original_attributes,
            package: None,
        }
    }
}

impl UpdateHostParamsBuilder {
    /// The parameters that create the host: its own configuration, or a default one with the
    /// `dummy` check command and, when there is one, the assignment of the zone; version 0.0 and no package.
    pub fn build(self) -> (res: UpdateObjectParams)
        ensures
            res.spec_name()@ == self.spec_name(),
            res.spec_object_type() == IcingaObjectType::Host,
            res.spec_version() == (FloatBits { bits: 0 }),
            res.spec_config() is Some,
            res.spec_config()->0@ == match self.spec_config() {
                Some(c) => c@,
                None => default_host_config(self.spec_name(), self.spec_zone()),
            },
            res.spec_modified_attributes() == self.spec_modified_attributes(),
            res.spec_original_attributes() == self.spec_original_attributes(),
            res.spec_package() is None,
    {
        let config = match self.config {
            None => {
                let mut c = String::new();
                push_str(&mut c, "object Host \"");
                push_str(&mut c, self.name.as_str());
                push_str(&mut c, "\" {\n\tcheck_command = \"dummy\"\n");
                match &self.zone {
                    Some(z) => {
                        push_str(&mut c, "\tzone = \"");
                        push_str(&mut c, z.as_str());
                        push_str(&mut c, "\"\n");
                    },
                    None => {},
                }
                push_char(&mut c, '}');
                assert(c@ =~= default_host_config(self.name@, self.zone));
                c
            },
            Some(config) => config,
        };
        UpdateObjectParams {
            name: self.name,
            object_type: IcingaObjectType::Host,
            version: FloatBits { bits: 0 },
            config: Some(config),
            modified_attributes: self.modified_attributes,
            original_attributes: self.original_attributes,
            package: None,
        }
    }
}

/// The parameters of the `config::DeleteObject` message: the object that was deleted.
#[derive(Debug, PartialEq)]
pub struct DeleteObject {
    pub name: String,
    object_type: IcingaObjectType,
    version: FloatBits,
}

impl DeleteObject {
    /// The parameters made of the given parts.
    pub fn from_parts(name: String, object_type: IcingaObjectType, version: FloatBits) -> (res: DeleteObject)
        ensures
            res.spec_name() == name,
            res.spec_object_type() == object_type,
            res.spec_version() == version,
    {
        DeleteObject { name, object_type, version }
    }

    /// The name of the deleted object.
    pub closed spec fn spec_name(self) -> String {
        self.name
    }

    /// The type of the deleted object.
    pub closed spec fn spec_object_type(self) -> IcingaObjectType {
        self.object_type
    }

    /// The version of the deleted object.
    pub closed spec fn spec_version(self) -> FloatBits {
        self.version
    }

    /// The name of the deleted object, taken out of the parameters.
    pub fn into_name(self) -> (res: String)
        ensures
            res == self.spec_name(),
    {
        self.name
    }

    /// The name of the deleted object.
    pub fn name(&self) -> (res: &String)
        ensures
            *res == self.spec_name(),
    {
        &self.name
    }

    /// The type of the deleted object.
    pub fn object_type(&self) -> (res: IcingaObjectType)
        ensures
            res == self.spec_object_type(),
    {
        self.object_type
    }

    /// The version of the deleted object.
    pub fn version(&self) -> (res: FloatBits)
        ensures
            res == self.spec_version(),
    {
        self.version
    }
}

/// A host created with no configuration of its own gets the `dummy` check command and a zone
/// line only when a zone is set: with no zone its configuration is exactly
/// `object Host "<name>" {\n\tcheck_command = "dummy"\n}`, and with the zone `z` it is that
/// configuration with `\tzone = "<z>"\n` before the closing brace.
pub proof fn law_default_host_config_names_the_zone_only_when_set(name: Seq<char>, zone: Option<String>)
    ensures
        default_host_config(name, None) == "object Host \""@ + name + "\" {\n\tcheck_command = \"dummy\"\n}"@,
        zone matches Some(z) ==> default_host_config(name, zone)
            == default_host_config(name, None).drop_last() + "\tzone = \""@ + z@ + "\"\n}"@,
{
    reveal_strlit("object Host \"");
    reveal_strlit("\" {\n\tcheck_command = \"dummy\"\n");
    reveal_strlit("\" {\n\tcheck_command = \"dummy\"\n}");
    reveal_strlit("\tzone = \"");
    reveal_strlit("\"\n");
    reveal_strlit("\"\n}");
    let head = "object Host \""@ + name + "\" {\n\tcheck_command = \"dummy\"\n"@;
    assert(default_host_config(name, None) =~= head + seq!['}']);
    assert(head + "\" {\n\tcheck_command = \"dummy\"\n"@.subrange(0, 0) =~= head);
    assert("object Host \""@ + name + "\" {\n\tcheck_command = \"dummy\"\n}"@ =~= head + seq!['}']);
    assert((head + seq!['}']).drop_last() =~= head);
    if let Some(z) = zone {
        assert(default_host_config(name, zone) =~= head + ("\tzone = \""@ + z@ + "\"\n"@) + seq!['}']);
        assert(head + "\tzone = \""@ + z@ + "\"\n}"@ =~= head + ("\tzone = \""@ + z@ + "\"\n"@) + seq!['}']);
    }
}

} // verus!
