//! The control interface client's decision core.
//!
//! Every high-level operation validates its identifiers, builds its
//! subject through the topic addressing scheme, and encodes its payload;
//! the result is a [`ControlRequest`] that the transport layer dispatches
//! through the request-reply engine or the auction engine.  Validation
//! and encoding errors are raised here, before any network activity; the
//! transport's own outcomes are interpreted by
//! [`crate::request::complete_request`] and
//! [`crate::auction::AuctionCollector`].

use crate::commands::{
    encode_component_auction_req, encode_config_map, encode_delete_link, encode_host_label,
    encode_host_label_key, encode_link, encode_provider_auction_req, encode_registries,
    encode_scale_cmd, encode_start_provider_cmd, encode_stop_host_cmd, encode_stop_provider_cmd,
    encode_update_cmd, jobj, spec_component_auction_req, spec_delete_link, spec_host_label,
    spec_host_label_key, spec_link, spec_provider_auction_req, spec_registries, spec_scale_cmd,
    spec_start_provider_cmd, spec_stop_host_cmd, spec_stop_provider_cmd, spec_update_cmd, Link,
    RegistryCredential,
};
use crate::ident::IdentifierKind;
use crate::text::{all_space, spec_trim};
use crate::topic;
use crate::topic::{prefix_view, spec_event_topic, spec_topic, TopicKind};
use crate::CtlError;
use vstd::prelude::*;

verus! {

/// One prepared control-plane message: where it goes, what it says, and
/// how a failed call is reported.
#[derive(Debug, Clone, PartialEq, Eq)]
pub struct ControlRequest {
    /// The subject the message is routed by.
    pub subject: String,
    /// The JSON text of the body; empty for queries that carry none.
    pub payload: String,
    /// The user-visible context under which a timeout, transport or
    /// decode failure of this call is reported (see
    /// [`crate::CtlError::describe`]); empty for operations that
    /// surface such failures without further words.
    pub context: String,
}

/// Fluently collects the client's configuration settings.
#[derive(Debug, Clone)]
pub struct ClientBuilder {
    /// The topic prefix for all control subjects; the well-known root
    /// when unset.  Not to be confused with the lattice id.
    pub topic_prefix: Option<String>,
    /// The lattice id this client addresses.
    pub lattice: String,
    /// How long a request-reply call waits, in milliseconds.
    pub timeout_ms: u64,
    /// How long an auction collects, in milliseconds.
    pub auction_timeout_ms: u64,
}

impl ClientBuilder {
    /// All configuration values at their defaults.
    pub fn new() -> (r: ClientBuilder)
        ensures
            r.topic_prefix is None,
            r.lattice@ == "default"@,
            r.timeout_ms == 2000,
            r.auction_timeout_ms == 5000,
    {
        ClientBuilder {
            topic_prefix: None,
            lattice: String::from_str("default"),
            timeout_ms: 2000,
            auction_timeout_ms: 5000,
        }
    }

    /// Sets the topic prefix used for all control subjects.
    pub fn topic_prefix(self, prefix: String) -> (r: ClientBuilder)
        ensures
            r.topic_prefix == Some(prefix),
            r.lattice == self.lattice,
            r.timeout_ms == self.timeout_ms,
            r.auction_timeout_ms == self.auction_timeout_ms,
    {
        ClientBuilder { topic_prefix: Some(prefix), ..self }
    }

    /// Sets the lattice id used for this client.
    pub fn lattice(self, prefix: String) -> (r: ClientBuilder)
        ensures
            r.lattice == prefix,
            r.topic_prefix == self.topic_prefix,
            r.timeout_ms == self.timeout_ms,
            r.auction_timeout_ms == self.auction_timeout_ms,
    {
        ClientBuilder { lattice: prefix, ..self }
    }

    /// Sets the request-reply timeout.
    pub fn timeout(self, timeout_ms: u64) -> (r: ClientBuilder)
        ensures
            r.timeout_ms == timeout_ms,
            r.topic_prefix == self.topic_prefix,
            r.lattice == self.lattice,
            r.auction_timeout_ms == self.auction_timeout_ms,
    {
        ClientBuilder { timeout_ms, ..self }
    }

    /// Sets the auction collection window.
    pub fn auction_timeout(self, timeout_ms: u64) -> (r: ClientBuilder)
        ensures
            r.auction_timeout_ms == timeout_ms,
            r.topic_prefix == self.topic_prefix,
            r.lattice == self.lattice,
            r.timeout_ms == self.timeout_ms,
    {
        ClientBuilder { auction_timeout_ms: timeout_ms, ..self }
    }

    /// Constructs the client core with the collected configuration.
    pub fn build(self) -> (r: ClientCore)
        ensures
            r.topic_prefix == self.topic_prefix,
            r.lattice == self.lattice,
            r.timeout_ms == self.timeout_ms,
            r.auction_timeout_ms == self.auction_timeout_ms,
    {
        ClientCore {
            topic_prefix: self.topic_prefix,
            lattice: self.lattice,
            timeout_ms: self.timeout_ms,
            auction_timeout_ms: self.auction_timeout_ms,
        }
    }
}

/// The lattice control client's configuration and request builders.
/// The bus connection itself is held by the transport layer, which
/// dispatches what these builders prepare.
#[derive(Debug, Clone)]
pub struct ClientCore {
    /// The topic prefix for all control subjects; the well-known root
    /// when unset.
    pub topic_prefix: Option<String>,
    /// The lattice id this client addresses.
    pub lattice: String,
    /// How long a request-reply call waits, in milliseconds.
    pub timeout_ms: u64,
    /// How long an auction collects, in milliseconds.
    pub auction_timeout_ms: u64,
}

impl ClientCore {
    /// A client core with all default settings.
    pub fn new() -> (r: ClientCore)
        ensures
            r.topic_prefix is None,
            r.lattice@ == "default"@,
            r.timeout_ms == 2000,
            r.auction_timeout_ms == 5000,
    {
        ClientBuilder::new().build()
    }

    /// The lattice in use by this client.
    pub fn lattice(&self) -> (r: &str)
        ensures
            r@ == self.lattice@,
    {
        self.lattice.as_str()
    }

    /// The query for all responsive hosts in the lattice; dispatched as
    /// a scatter/gather collection over the full auction window.
    pub fn get_hosts(&self) -> (r: ControlRequest)
        ensures
            r.subject@ == spec_topic(
                prefix_view(&self.topic_prefix),
                self.lattice@,
                TopicKind::GetHosts,
            ),
            r.payload@.len() == 0,
            r.context@.len() == 0,
    {
        ControlRequest {
            subject: topic::hosts(&self.topic_prefix, self.lattice.as_str()),
            payload: String::new(),
            context: String::new(),
        }
    }

    /// The query for the contents of one running host.
    pub fn get_host_inventory(&self, host_id: &str) -> (r: Result<ControlRequest, CtlError>)
        ensures
            all_space(host_id@) ==> r == Err::<ControlRequest, CtlError>(
                CtlError::InvalidIdentifier(IdentifierKind::HostId),
            ),
            !all_space(host_id@) ==> (r matches Ok(q) && q.subject@ == spec_topic(
                prefix_view(&self.topic_prefix),
                self.lattice@,
                TopicKind::GetInventory { host: spec_trim(host_id@) },
            ) && q.payload@.len() == 0 && q.context@
                == "Did not receive host inventory from target host"@),
    {
        let host = match IdentifierKind::is_host_id(host_id) {
            Ok(h) => h,
            Err(e) => {
                return Err(e);
            },
        };
        Ok(ControlRequest {
            subject: topic::host_inventory(
                &self.topic_prefix,
                self.lattice.as_str(),
                host.as_str(),
            ),
            payload: String::new(),
            context: String::from_str("Did not receive host inventory from target host"),
        })
    }

    /// The query for the full set of cached claims in the lattice.
    pub fn get_claims(&self) -> (r: ControlRequest)
        ensures
            r.subject@ == spec_topic(
                prefix_view(&self.topic_prefix),
                self.lattice@,
                TopicKind::GetClaims,
            ),
            r.payload@.len() == 0,
            r.context@ == "Did not receive claims from lattice"@,
    {
        ControlRequest {
            subject: topic::claims(&self.topic_prefix, self.lattice.as_str()),
            payload: String::new(),
            context: String::from_str("Did not receive claims from lattice"),
        }
    }

    /// The broadcast that opens a component auction: any number of
    /// anonymous hosts matching the constraints may answer on the
    /// auction's reply inbox.
    pub fn perform_component_auction(
        &self,
        component_ref: &str,
        component_id: &str,
        constraints: &Vec<(String, String)>,
    ) -> (r: Result<ControlRequest, CtlError>)
        ensures
            all_space(component_ref@) ==> r == Err::<ControlRequest, CtlError>(
                CtlError::InvalidIdentifier(IdentifierKind::ComponentRef),
            ),
            !all_space(component_ref@) && all_space(component_id@) ==> r == Err::<
                ControlRequest,
                CtlError,
            >(CtlError::InvalidIdentifier(IdentifierKind::ComponentId)),
            !all_space(component_ref@) && !all_space(component_id@) ==> (r matches Ok(q)
                && q.subject@ == spec_topic(
                prefix_view(&self.topic_prefix),
                self.lattice@,
                TopicKind::AuctionComponent,
            ) && q.payload@ == spec_component_auction_req(
                spec_trim(component_ref@),
                spec_trim(component_id@),
                constraints.deep_view(),
            ) && q.context@.len() == 0),
    {
        let cref = match IdentifierKind::is_component_ref(component_ref) {
            Ok(t) => t,
            Err(e) => {
                return Err(e);
            },
        };
        let cid = match IdentifierKind::is_component_id(component_id) {
            Ok(t) => t,
            Err(e) => {
                return Err(e);
            },
        };
        Ok(ControlRequest {
            subject: topic::component_auction_subject(&self.topic_prefix, self.lattice.as_str()),
            payload: encode_component_auction_req(cref.as_str(), cid.as_str(), constraints),
            context: String::new(),
        })
    }

    /// The broadcast that opens a provider auction.
    pub fn perform_provider_auction(
        &self,
        provider_ref: &str,
        provider_id: &str,
        constraints: &Vec<(String, String)>,
    ) -> (r: Result<ControlRequest, CtlError>)
        ensures
            all_space(provider_ref@) ==> r == Err::<ControlRequest, CtlError>(
                CtlError::InvalidIdentifier(IdentifierKind::ProviderRef),
            ),
            !all_space(provider_ref@) && all_space(provider_id@) ==> r == Err::<
                ControlRequest,
                CtlError,
            >(CtlError::InvalidIdentifier(IdentifierKind::ProviderId)),
            !all_space(provider_ref@) && !all_space(provider_id@) ==> (r matches Ok(q)
                && q.subject@ == spec_topic(
                prefix_view(&self.topic_prefix),
                self.lattice@,
                TopicKind::AuctionProvider,
            ) && q.payload@ == spec_provider_auction_req(
                spec_trim(provider_ref@),
                spec_trim(provider_id@),
                constraints.deep_view(),
            ) && q.context@.len() == 0),
    {
        let pref = match IdentifierKind::is_provider_ref(provider_ref) {
            Ok(t) => t,
            Err(e) => {
                return Err(e);
            },
        };
        let pid = match IdentifierKind::is_provider_id(provider_id) {
            Ok(t) => t,
            Err(e) => {
                return Err(e);
            },
        };
        Ok(ControlRequest {
            subject: topic::provider_auction_subject(&self.topic_prefix, self.lattice.as_str()),
            payload: encode_provider_auction_req(pref.as_str(), pid.as_str(), constraints),
            context: String::new(),
        })
    }

    /// The command that scales a component on one host.  A
    /// `max_instances` of zero is the documented idiom for "stop"; the
    /// value is carried verbatim, never clamped.
    pub fn scale_component(
        &self,
        host_id: &str,
        component_ref: &str,
        component_id: &str,
        max_instances: u32,
        annotations: &Option<Vec<(String, String)>>,
        config: &Vec<String>,
    ) -> (r: Result<ControlRequest, CtlError>)
        ensures
            all_space(host_id@) ==> r == Err::<ControlRequest, CtlError>(
                CtlError::InvalidIdentifier(IdentifierKind::HostId),
            ),
            !all_space(host_id@) && all_space(component_ref@) ==> r == Err::<
                ControlRequest,
                CtlError,
            >(CtlError::InvalidIdentifier(IdentifierKind::ComponentRef)),
            !all_space(host_id@) && !all_space(component_ref@) && all_space(component_id@)
                ==> r == Err::<ControlRequest, CtlError>(
                CtlError::InvalidIdentifier(IdentifierKind::ComponentId),
            ),
            !all_space(host_id@) && !all_space(component_ref@) && !all_space(component_id@) ==> (
            r matches Ok(q) && q.subject@ == spec_topic(
                prefix_view(&self.topic_prefix),
                self.lattice@,
                TopicKind::CmdScale { host: spec_trim(host_id@) },
            ) && q.payload@ == spec_scale_cmd(
                spec_trim(host_id@),
                spec_trim(component_ref@),
                spec_trim(component_id@),
                max_instances as int,
                annotations.deep_view(),
                config.deep_view(),
            ) && q.context@ == "Did not receive scale component acknowledgement"@),
    {
        let host = match IdentifierKind::is_host_id(host_id) {
            Ok(h) => h,
            Err(e) => {
                return Err(e);
            },
        };
        let cref = match IdentifierKind::is_component_ref(component_ref) {
            Ok(t) => t,
            Err(e) => {
                return Err(e);
            },
        };
        let cid = match IdentifierKind::is_component_id(component_id) {
            Ok(t) => t,
            Err(e) => {
                return Err(e);
            },
        };
        Ok(ControlRequest {
            subject: topic::scale_component(
                &self.topic_prefix,
                self.lattice.as_str(),
                host.as_str(),
            ),
            payload: encode_scale_cmd(
                host.as_str(),
                cref.as_str(),
                cid.as_str(),
                max_instances,
                annotations,
                config,
            ),
            context: String::from_str("Did not receive scale component acknowledgement"),
        })
    }

    /// The write that replaces every host's registry credential map.
    /// The payload carries secrets; isolate the control interface
    /// accordingly.
    pub fn put_registries(&self, registries: &Vec<(String, RegistryCredential)>) -> (r:
        ControlRequest)
        ensures
            r.subject@ == spec_topic(
                prefix_view(&self.topic_prefix),
                self.lattice@,
                TopicKind::RegistriesPut,
            ),
            r.payload@ == spec_registries(registries.deep_view()),
            r.context@ == "Failed to push registry credential map"@,
    {
        ControlRequest {
            subject: topic::publish_registries(&self.topic_prefix, self.lattice.as_str()),
            payload: encode_registries(registries),
            context: String::from_str("Failed to push registry credential map"),
        }
    }

    /// The write that puts a link into the lattice.  The link's own
    /// fields are validated, and the link is carried as given.
    pub fn put_link(&self, link: &Link) -> (r: Result<ControlRequest, CtlError>)
        ensures
            all_space(link.source_id@) ==> r == Err::<ControlRequest, CtlError>(
                CtlError::InvalidIdentifier(IdentifierKind::ComponentId),
            ),
            !all_space(link.source_id@) && all_space(link.target@) ==> r == Err::<
                ControlRequest,
                CtlError,
            >(CtlError::InvalidIdentifier(IdentifierKind::ComponentId)),
            !all_space(link.source_id@) && !all_space(link.target@) && all_space(link.name@)
                ==> r == Err::<ControlRequest, CtlError>(
                CtlError::InvalidIdentifier(IdentifierKind::LinkName),
            ),
            !all_space(link.source_id@) && !all_space(link.target@) && !all_space(link.name@)
                ==> (r matches Ok(q) && q.subject@ == spec_topic(
                prefix_view(&self.topic_prefix),
                self.lattice@,
                TopicKind::LinkdefPut,
            ) && q.payload@ == spec_link(link@) && q.context@
                == "Did not receive put link acknowledgement"@),
    {
        match IdentifierKind::is_component_id(link.source_id.as_str()) {
            Ok(_) => {},
            Err(e) => {
                return Err(e);
            },
        }
        match IdentifierKind::is_component_id(link.target.as_str()) {
            Ok(_) => {},
            Err(e) => {
                return Err(e);
            },
        }
        match IdentifierKind::is_link_name(link.name.as_str()) {
            Ok(_) => {},
            Err(e) => {
                return Err(e);
            },
        }
        Ok(ControlRequest {
            subject: topic::put_link(&self.topic_prefix, self.lattice.as_str()),
            payload: encode_link(link),
            context: String::from_str("Did not receive put link acknowledgement"),
        })
    }

    /// The write that deletes a link, an idempotent operation.
    pub fn delete_link(
        &self,
        source_id: &str,
        link_name: &str,
        wit_namespace: &str,
        wit_package: &str,
    ) -> (r: Result<ControlRequest, CtlError>)
        ensures
            all_space(source_id@) ==> r == Err::<ControlRequest, CtlError>(
                CtlError::InvalidIdentifier(IdentifierKind::ComponentId),
            ),
            !all_space(source_id@) && all_space(link_name@) ==> r == Err::<
                ControlRequest,
                CtlError,
            >(CtlError::InvalidIdentifier(IdentifierKind::LinkName)),
            !all_space(source_id@) && !all_space(link_name@) ==> (r matches Ok(q) && q.subject@
                == spec_topic(
                prefix_view(&self.topic_prefix),
                self.lattice@,
                TopicKind::LinkdefDel,
            ) && q.payload@ == spec_delete_link(
                spec_trim(source_id@),
                spec_trim(link_name@),
                wit_namespace@,
                wit_package@,
            ) && q.context@ == "Did not receive delete link acknowledgement"@),
    {
        let sid = match IdentifierKind::is_component_id(source_id) {
            Ok(t) => t,
            Err(e) => {
                return Err(e);
            },
        };
        let name = match IdentifierKind::is_link_name(link_name) {
            Ok(t) => t,
            Err(e) => {
                return Err(e);
            },
        };
        Ok(ControlRequest {
            subject: topic::delete_link(&self.topic_prefix, self.lattice.as_str()),
            payload: encode_delete_link(sid.as_str(), name.as_str(), wit_namespace, wit_package),
            context: String::from_str("Did not receive delete link acknowledgement"),
        })
    }

    /// The query for the link definitions stored in the lattice.
    pub fn get_links(&self) -> (r: ControlRequest)
        ensures
            r.subject@ == spec_topic(
                prefix_view(&self.topic_prefix),
                self.lattice@,
                TopicKind::GetLinks,
            ),
            r.payload@.len() == 0,
            r.context@ == "Did not receive a response to get links"@,
    {
        ControlRequest {
            subject: topic::link_definitions(&self.topic_prefix, self.lattice.as_str()),
            payload: String::new(),
            context: String::from_str("Did not receive a response to get links"),
        }
    }

    /// The write that puts a named config, replacing what was there.
    pub fn put_config(&self, config_name: &str, config: &Vec<(String, String)>) -> (r:
        ControlRequest)
        ensures
            r.subject@ == spec_topic(
                prefix_view(&self.topic_prefix),
                self.lattice@,
                TopicKind::ConfigPut { name: config_name@ },
            ),
            r.payload@ == jobj(config.deep_view()),
            r.context@ == "Did not receive a response to put config request"@,
    {
        ControlRequest {
            subject: topic::put_config(&self.topic_prefix, self.lattice.as_str(), config_name),
            payload: encode_config_map(config),
            context: String::from_str("Did not receive a response to put config request"),
        }
    }

    /// The write that deletes a named config item.
    pub fn delete_config(&self, config_name: &str) -> (r: ControlRequest)
        ensures
            r.subject@ == spec_topic(
                prefix_view(&self.topic_prefix),
                self.lattice@,
                TopicKind::ConfigDel { name: config_name@ },
            ),
            r.payload@.len() == 0,
            r.context@ == "Did not receive a response to delete config request"@,
    {
        ControlRequest {
            subject: topic::delete_config(&self.topic_prefix, self.lattice.as_str(), config_name),
            payload: String::new(),
            context: String::from_str("Did not receive a response to delete config request"),
        }
    }

    /// The query for a named config item.  A host that has no such entry
    /// answers success with no payload — distinguished from a transport
    /// failure, which surfaces as a call-level error instead.
    pub fn get_config(&self, config_name: &str) -> (r: ControlRequest)
        ensures
            r.subject@ == spec_topic(
                prefix_view(&self.topic_prefix),
                self.lattice@,
                TopicKind::GetConfig { name: config_name@ },
            ),
            r.payload@.len() == 0,
            r.context@ == "Did not receive a response to get config request"@,
    {
        ControlRequest {
            subject: topic::config(&self.topic_prefix, self.lattice.as_str(), config_name),
            payload: String::new(),
            context: String::from_str("Did not receive a response to get config request"),
        }
    }

    /// The write that puts a label on one host.
    pub fn put_label(&self, host_id: &str, key: &str, value: &str) -> (r: Result<
        ControlRequest,
        CtlError,
    >)
        ensures
            all_space(host_id@) ==> r == Err::<ControlRequest, CtlError>(
                CtlError::InvalidIdentifier(IdentifierKind::HostId),
            ),
            !all_space(host_id@) ==> (r matches Ok(q) && q.subject@ == spec_topic(
                prefix_view(&self.topic_prefix),
                self.lattice@,
                TopicKind::LabelPut { host: spec_trim(host_id@) },
            ) && q.payload@ == spec_host_label(key@, value@) && q.context@
                == "Did not receive put label acknowledgement"@),
    {
        let host = match IdentifierKind::is_host_id(host_id) {
            Ok(h) => h,
            Err(e) => {
                return Err(e);
            },
        };
        Ok(ControlRequest {
            subject: topic::put_label(&self.topic_prefix, self.lattice.as_str(), host.as_str()),
            payload: encode_host_label(key, value),
            context: String::from_str("Did not receive put label acknowledgement"),
        })
    }

    /// The write that removes a label from one host.
    pub fn delete_label(&self, host_id: &str, key: &str) -> (r: Result<ControlRequest, CtlError>)
        ensures
            all_space(host_id@) ==> r == Err::<ControlRequest, CtlError>(
                CtlError::InvalidIdentifier(IdentifierKind::HostId),
            ),
            !all_space(host_id@) ==> (r matches Ok(q) && q.subject@ == spec_topic(
                prefix_view(&self.topic_prefix),
                self.lattice@,
                TopicKind::LabelDel { host: spec_trim(host_id@) },
            ) && q.payload@ == spec_host_label_key(key@) && q.context@
                == "Did not receive remove label acknowledgement"@),
    {
        let host = match IdentifierKind::is_host_id(host_id) {
            Ok(h) => h,
            Err(e) => {
                return Err(e);
            },
        };
        Ok(ControlRequest {
            subject: topic::delete_label(
                &self.topic_prefix,
                self.lattice.as_str(),
                host.as_str(),
            ),
            payload: encode_host_label_key(key),
            context: String::from_str("Did not receive remove label acknowledgement"),
        })
    }

    /// The command that replaces a running component with a new one on
    /// one host.
    pub fn update_component(
        &self,
        host_id: &str,
        existing_component_id: &str,
        new_component_ref: &str,
        annotations: &Option<Vec<(String, String)>>,
    ) -> (r: Result<ControlRequest, CtlError>)
        ensures
            all_space(host_id@) ==> r == Err::<ControlRequest, CtlError>(
                CtlError::InvalidIdentifier(IdentifierKind::HostId),
            ),
            !all_space(host_id@) && all_space(existing_component_id@) ==> r == Err::<
                ControlRequest,
                CtlError,
            >(CtlError::InvalidIdentifier(IdentifierKind::ComponentId)),
            !all_space(host_id@) && !all_space(existing_component_id@) && all_space(
                new_component_ref@,
            ) ==> r == Err::<ControlRequest, CtlError>(
                CtlError::InvalidIdentifier(IdentifierKind::ComponentRef),
            ),
            !all_space(host_id@) && !all_space(existing_component_id@) && !all_space(
                new_component_ref@,
            ) ==> (r matches Ok(q) && q.subject@ == spec_topic(
                prefix_view(&self.topic_prefix),
                self.lattice@,
                TopicKind::CmdUpdate { host: spec_trim(host_id@) },
            ) && q.payload@ == spec_update_cmd(
                spec_trim(host_id@),
                spec_trim(existing_component_id@),
                spec_trim(new_component_ref@),
                annotations.deep_view(),
            ) && q.context@ == "Did not receive update component acknowledgement"@),
    {
        let host = match IdentifierKind::is_host_id(host_id) {
            Ok(h) => h,
            Err(e) => {
                return Err(e);
            },
        };
        let cid = match IdentifierKind::is_component_id(existing_component_id) {
            Ok(t) => t,
            Err(e) => {
                return Err(e);
            },
        };
        let cref = match IdentifierKind::is_component_ref(new_component_ref) {
            Ok(t) => t,
            Err(e) => {
                return Err(e);
            },
        };
        Ok(ControlRequest {
            subject: topic::update_component(
                &self.topic_prefix,
                self.lattice.as_str(),
                host.as_str(),
            ),
            payload: encode_update_cmd(host.as_str(), cid.as_str(), cref.as_str(), annotations),
            context: String::from_str("Did not receive update component acknowledgement"),
        })
    }

    /// The command that starts a provider on one host.  The host
    /// acknowledges receipt before fetching anything, so this is not a
    /// confirmation that the provider runs.
    pub fn start_provider(
        &self,
        host_id: &str,
        provider_ref: &str,
        provider_id: &str,
        annotations: &Option<Vec<(String, String)>>,
        provider_configuration: &Vec<String>,
    ) -> (r: Result<ControlRequest, CtlError>)
        ensures
            all_space(host_id@) ==> r == Err::<ControlRequest, CtlError>(
                CtlError::InvalidIdentifier(IdentifierKind::HostId),
            ),
            !all_space(host_id@) && all_space(provider_ref@) ==> r == Err::<
                ControlRequest,
                CtlError,
            >(CtlError::InvalidIdentifier(IdentifierKind::ProviderRef)),
            !all_space(host_id@) && !all_space(provider_ref@) && all_space(provider_id@) ==> r
                == Err::<ControlRequest, CtlError>(
                CtlError::InvalidIdentifier(IdentifierKind::ProviderId),
            ),
            !all_space(host_id@) && !all_space(provider_ref@) && !all_space(provider_id@) ==> (
            r matches Ok(q) && q.subject@ == spec_topic(
                prefix_view(&self.topic_prefix),
                self.lattice@,
                TopicKind::CmdStartProvider { host: spec_trim(host_id@) },
            ) && q.payload@ == spec_start_provider_cmd(
                spec_trim(host_id@),
                spec_trim(provider_ref@),
                spec_trim(provider_id@),
                annotations.deep_view(),
                provider_configuration.deep_view(),
            ) && q.context@ == "Did not receive start provider acknowledgement"@),
    {
        let host = match IdentifierKind::is_host_id(host_id) {
            Ok(h) => h,
            Err(e) => {
                return Err(e);
            },
        };
        let pref = match IdentifierKind::is_provider_ref(provider_ref) {
            Ok(t) => t,
            Err(e) => {
                return Err(e);
            },
        };
        let pid = match IdentifierKind::is_provider_id(provider_id) {
            Ok(t) => t,
            Err(e) => {
                return Err(e);
            },
        };
        Ok(ControlRequest {
            subject: topic::start_provider(
                &self.topic_prefix,
                self.lattice.as_str(),
                host.as_str(),
            ),
            payload: encode_start_provider_cmd(
                host.as_str(),
                pref.as_str(),
                pid.as_str(),
                annotations,
                provider_configuration,
            ),
            context: String::from_str("Did not receive start provider acknowledgement"),
        })
    }

    /// The command that stops a provider on one host.
    pub fn stop_provider(&self, host_id: &str, provider_id: &str) -> (r: Result<
        ControlRequest,
        CtlError,
    >)
        ensures
            all_space(host_id@) ==> r == Err::<ControlRequest, CtlError>(
                CtlError::InvalidIdentifier(IdentifierKind::HostId),
            ),
            !all_space(host_id@) && all_space(provider_id@) ==> r == Err::<
                ControlRequest,
                CtlError,
            >(CtlError::InvalidIdentifier(IdentifierKind::ProviderId)),
            !all_space(host_id@) && !all_space(provider_id@) ==> (r matches Ok(q) && q.subject@
                == spec_topic(
                prefix_view(&self.topic_prefix),
                self.lattice@,
                TopicKind::CmdStopProvider { host: spec_trim(host_id@) },
            ) && q.payload@ == spec_stop_provider_cmd(
                spec_trim(host_id@),
                spec_trim(provider_id@),
            ) && q.context@ == "Did not receive stop provider acknowledgement"@),
    {
        let host = match IdentifierKind::is_host_id(host_id) {
            Ok(h) => h,
            Err(e) => {
                return Err(e);
            },
        };
        let pid = match IdentifierKind::is_provider_id(provider_id) {
            Ok(t) => t,
            Err(e) => {
                return Err(e);
            },
        };
        Ok(ControlRequest {
            subject: topic::stop_provider(
                &self.topic_prefix,
                self.lattice.as_str(),
                host.as_str(),
            ),
            payload: encode_stop_provider_cmd(host.as_str(), pid.as_str()),
            context: String::from_str("Did not receive stop provider acknowledgement"),
        })
    }

    /// The command that asks one host for a graceful termination, with
    /// an optional grace period in milliseconds.
    pub fn stop_host(&self, host_id: &str, timeout_ms: Option<u64>) -> (r: Result<
        ControlRequest,
        CtlError,
    >)
        ensures
            all_space(host_id@) ==> r == Err::<ControlRequest, CtlError>(
                CtlError::InvalidIdentifier(IdentifierKind::HostId),
            ),
            !all_space(host_id@) ==> (r matches Ok(q) && q.subject@ == spec_topic(
                prefix_view(&self.topic_prefix),
                self.lattice@,
                TopicKind::CmdStopHost { host: spec_trim(host_id@) },
            ) && q.payload@ == spec_stop_host_cmd(spec_trim(host_id@), timeout_ms)
                && q.context@ == "Did not receive stop host acknowledgement"@),
    {
        let host = match IdentifierKind::is_host_id(host_id) {
            Ok(h) => h,
            Err(e) => {
                return Err(e);
            },
        };
        Ok(ControlRequest {
            subject: topic::stop_host(&self.topic_prefix, self.lattice.as_str(), host.as_str()),
            payload: encode_stop_host_cmd(host.as_str(), &timeout_ms),
            context: String::from_str("Did not receive stop host acknowledgement"),
        })
    }

    /// The subjects the event stream aggregator subscribes to: one per
    /// requested event category, on this client's lattice.
    pub fn event_subjects(&self, event_types: &Vec<String>) -> (r: Vec<String>)
        ensures
            r.deep_view().len() == event_types.deep_view().len(),
            forall|i: int|
                0 <= i < r.deep_view().len() ==> #[trigger] r.deep_view()[i] == spec_event_topic(
                    prefix_view(&self.topic_prefix),
                    self.lattice@,
                    event_types.deep_view()[i],
                ),
    {
        let mut out: Vec<String> = Vec::new();
        let n = event_types.len();
        let mut i: usize = 0;
        while i < n
            invariant
                0 <= i <= n,
                n == event_types.deep_view().len(),
                event_types.deep_view().len() == event_types@.len(),
                forall|k: int|
                    0 <= k < n ==> #[trigger] event_types.deep_view()[k] == event_types@[k]@,
                out.deep_view().len() == i,
                forall|k: int|
                    0 <= k < i ==> #[trigger] out.deep_view()[k] == spec_event_topic(
                        prefix_view(&self.topic_prefix),
                        self.lattice@,
                        event_types.deep_view()[k],
                    ),
            decreases n - i,
        {
            let ghost before = out.deep_view();
            out.push(topic::event_subject(
                &self.topic_prefix,
                self.lattice.as_str(),
                event_types[i].as_str(),
            ));
            proof {
                assert(out.deep_view() =~= before.push(out@[i as int]@));
            }
            i = i + 1;
        }
        out
    }
}

} // verus!
