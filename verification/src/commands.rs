//! Command and query payload encoders.
//!
//! Every operation's request body is written as JSON text with a fixed
//! field order, string values escaped as in [`crate::json`].  Identifier
//! fields are validated by the caller before anything here runs; numeric
//! fields carry no implicit clamping — a `max_instances` of zero is the
//! documented idiom for "stop".

use crate::json::{append_escaped, dec_str, escape, u64_to_string};
use vstd::prelude::*;

verus! {

/// A JSON string literal: the escaped text between double quotes.
pub open spec fn jstr(s: Seq<char>) -> Seq<char> {
    seq!['"'] + escape(s) + seq!['"']
}

/// A JSON string literal or `null`.
pub open spec fn jstr_opt(o: Option<Seq<char>>) -> Seq<char> {
    match o {
        Some(s) => jstr(s),
        None => "null"@,
    }
}

/// A JSON number or `null`.
pub open spec fn jnum_opt(o: Option<u64>) -> Seq<char> {
    match o {
        Some(n) => dec_str(n as int),
        None => "null"@,
    }
}

/// The comma-joined elements of a JSON array of strings.
pub open spec fn join_strs(es: Seq<Seq<char>>) -> Seq<char>
    decreases es.len(),
{
    if es.len() == 0 {
        Seq::empty()
    } else if es.len() == 1 {
        jstr(es[0])
    } else {
        join_strs(es.drop_last()) + seq![','] + jstr(es.last())
    }
}

/// A JSON array of strings.
pub open spec fn jarr(es: Seq<Seq<char>>) -> Seq<char> {
    seq!['['] + join_strs(es) + seq![']']
}

/// One `"key":"value"` member of a JSON object.
pub open spec fn pair_text(p: (Seq<char>, Seq<char>)) -> Seq<char> {
    jstr(p.0) + seq![':'] + jstr(p.1)
}

/// The comma-joined members of a JSON object of string pairs.
pub open spec fn join_pairs(ps: Seq<(Seq<char>, Seq<char>)>) -> Seq<char>
    decreases ps.len(),
{
    if ps.len() == 0 {
        Seq::empty()
    } else if ps.len() == 1 {
        pair_text(ps[0])
    } else {
        join_pairs(ps.drop_last()) + seq![','] + pair_text(ps.last())
    }
}

/// A JSON object of string pairs.
pub open spec fn jobj(ps: Seq<(Seq<char>, Seq<char>)>) -> Seq<char> {
    seq!['{'] + join_pairs(ps) + seq!['}']
}

/// A JSON object of string pairs, or `null`.
pub open spec fn jobj_opt(o: Option<Seq<(Seq<char>, Seq<char>)>>) -> Seq<char> {
    match o {
        Some(ps) => jobj(ps),
        None => "null"@,
    }
}

/// Appends a JSON string literal.
pub fn append_jstr(out: &mut String, s: &str)
    ensures
        final(out)@ == old(out)@ + jstr(s@),
{
    out.append("\"");
    append_escaped(out, s);
    out.append("\"");
    proof {
        reveal_strlit("\"");
        assert(out@ =~= old(out)@ + jstr(s@));
    }
}

/// Appends a JSON string literal or `null`.
pub fn append_jstr_opt(out: &mut String, o: &Option<String>)
    ensures
        final(out)@ == old(out)@ + jstr_opt(o.deep_view()),
{
    match o {
        Some(s) => append_jstr(out, s.as_str()),
        None => out.append("null"),
    }
}

/// Appends a JSON number or `null`.
pub fn append_jnum_opt(out: &mut String, o: &Option<u64>)
    ensures
        final(out)@ == old(out)@ + jnum_opt(match *o {
            Some(n) => Some(n),
            None => None,
        }),
{
    match o {
        Some(n) => {
            let t = u64_to_string(*n);
            out.append(t.as_str());
        },
        None => out.append("null"),
    }
}

/// Appends a JSON array of strings.
pub fn append_jarr(out: &mut String, es: &Vec<String>)
    ensures
        final(out)@ == old(out)@ + jarr(es.deep_view()),
{
    out.append("[");
    let n = es.len();
    let ghost start = out@;
    let mut i: usize = 0;
    while i < n
        invariant
            0 <= i <= n,
            n == es.deep_view().len(),
            es.deep_view().len() == es@.len(),
            forall|k: int| 0 <= k < n ==> es.deep_view()[k] == es@[k]@,
            out@ == start + join_strs(es.deep_view().take(i as int)),
        decreases n - i,
    {
        if i > 0 {
            out.append(",");
        }
        append_jstr(out, es[i].as_str());
        proof {
            reveal_strlit(",");
            let t = es.deep_view().take(i + 1);
            assert(t.drop_last() =~= es.deep_view().take(i as int));
            assert(t.last() == es.deep_view()[i as int]);
            if i == 0 {
                assert(es.deep_view().take(0int) =~= Seq::<Seq<char>>::empty());
                assert(out@ =~= start + join_strs(t));
            } else {
                assert(out@ =~= start + join_strs(t));
            }
        }
        i = i + 1;
    }
    out.append("]");
    proof {
        reveal_strlit("[");
        reveal_strlit("]");
        assert(es.deep_view().take(n as int) =~= es.deep_view());
        assert(out@ =~= old(out)@ + jarr(es.deep_view()));
    }
}

/// Appends a JSON object of string pairs.
pub fn append_jobj(out: &mut String, ps: &Vec<(String, String)>)
    ensures
        final(out)@ == old(out)@ + jobj(ps.deep_view()),
{
    out.append("{");
    let n = ps.len();
    let ghost start = out@;
    let mut i: usize = 0;
    while i < n
        invariant
            0 <= i <= n,
            n == ps.deep_view().len(),
            ps.deep_view().len() == ps@.len(),
            forall|k: int|
                0 <= k < n ==> #[trigger] ps.deep_view()[k] == (ps@[k].0@, ps@[k].1@),
            out@ == start + join_pairs(ps.deep_view().take(i as int)),
        decreases n - i,
    {
        if i > 0 {
            out.append(",");
        }
        append_jstr(out, ps[i].0.as_str());
        out.append(":");
        append_jstr(out, ps[i].1.as_str());
        proof {
            reveal_strlit(",");
            reveal_strlit(":");
            let t = ps.deep_view().take(i + 1);
            assert(t.drop_last() =~= ps.deep_view().take(i as int));
            assert(t.last() == ps.deep_view()[i as int]);
            assert(":"@ =~= seq![':']);
            if i == 0 {
                assert(ps.deep_view().take(0int) =~= Seq::<(Seq<char>, Seq<char>)>::empty());
                assert(out@ =~= start + join_pairs(t));
            } else {
                assert(out@ =~= start + join_pairs(t));
            }
        }
        i = i + 1;
    }
    out.append("}");
    proof {
        reveal_strlit("{");
        reveal_strlit("}");
        assert(ps.deep_view().take(n as int) =~= ps.deep_view());
        assert(out@ =~= old(out)@ + jobj(ps.deep_view()));
    }
}

/// Appends a JSON object of string pairs, or `null`.
pub fn append_jobj_opt(out: &mut String, o: &Option<Vec<(String, String)>>)
    ensures
        final(out)@ == old(out)@ + jobj_opt(o.deep_view()),
{
    match o {
        Some(ps) => append_jobj(out, ps),
        None => out.append("null"),
    }
}

/// The wire text of the scale-component command.
pub open spec fn spec_scale_cmd(
    host: Seq<char>,
    component_ref: Seq<char>,
    component_id: Seq<char>,
    max_instances: int,
    annotations: Option<Seq<(Seq<char>, Seq<char>)>>,
    config: Seq<Seq<char>>,
) -> Seq<char> {
    "{\"host_id\":"@ + jstr(host) + ",\"component_ref\":"@ + jstr(component_ref)
        + ",\"component_id\":"@ + jstr(component_id) + ",\"max_instances\":"@ + dec_str(
        max_instances,
    ) + ",\"annotations\":"@ + jobj_opt(annotations) + ",\"config\":"@ + jarr(config)
        + seq!['}']
}

/// Writes the scale-component command body.
pub fn encode_scale_cmd(
    host_id: &str,
    component_ref: &str,
    component_id: &str,
    max_instances: u32,
    annotations: &Option<Vec<(String, String)>>,
    config: &Vec<String>,
) -> (r: String)
    ensures
        r@ == spec_scale_cmd(
            host_id@,
            component_ref@,
            component_id@,
            max_instances as int,
            annotations.deep_view(),
            config.deep_view(),
        ),
{
    let mut s = String::from_str("{\"host_id\":");
    append_jstr(&mut s, host_id);
    s.append(",\"component_ref\":");
    append_jstr(&mut s, component_ref);
    s.append(",\"component_id\":");
    append_jstr(&mut s, component_id);
    s.append(",\"max_instances\":");
    let t = u64_to_string(max_instances as u64);
    s.append(t.as_str());
    s.append(",\"annotations\":");
    append_jobj_opt(&mut s, annotations);
    s.append(",\"config\":");
    append_jarr(&mut s, config);
    s.append("}");
    proof {
        reveal_strlit("}");
        assert("}"@ =~= seq!['}']);
        assert(s@ =~= spec_scale_cmd(
            host_id@,
            component_ref@,
            component_id@,
            max_instances as int,
            annotations.deep_view(),
            config.deep_view(),
        ));
    }
    s
}

/// The wire text of the update-component command.
pub open spec fn spec_update_cmd(
    host: Seq<char>,
    component_id: Seq<char>,
    new_component_ref: Seq<char>,
    annotations: Option<Seq<(Seq<char>, Seq<char>)>>,
) -> Seq<char> {
    "{\"host_id\":"@ + jstr(host) + ",\"component_id\":"@ + jstr(component_id)
        + ",\"new_component_ref\":"@ + jstr(new_component_ref) + ",\"annotations\":"@
        + jobj_opt(annotations) + seq!['}']
}

/// Writes the update-component command body.
pub fn encode_update_cmd(
    host_id: &str,
    component_id: &str,
    new_component_ref: &str,
    annotations: &Option<Vec<(String, String)>>,
) -> (r: String)
    ensures
        r@ == spec_update_cmd(
            host_id@,
            component_id@,
            new_component_ref@,
            annotations.deep_view(),
        ),
{
    let mut s = String::from_str("{\"host_id\":");
    append_jstr(&mut s, host_id);
    s.append(",\"component_id\":");
    append_jstr(&mut s, component_id);
    s.append(",\"new_component_ref\":");
    append_jstr(&mut s, new_component_ref);
    s.append(",\"annotations\":");
    append_jobj_opt(&mut s, annotations);
    s.append("}");
    proof {
        reveal_strlit("}");
        assert("}"@ =~= seq!['}']);
        assert(s@ =~= spec_update_cmd(
            host_id@,
            component_id@,
            new_component_ref@,
            annotations.deep_view(),
        ));
    }
    s
}

/// The wire text of the start-provider command.
pub open spec fn spec_start_provider_cmd(
    host: Seq<char>,
    provider_ref: Seq<char>,
    provider_id: Seq<char>,
    annotations: Option<Seq<(Seq<char>, Seq<char>)>>,
    config: Seq<Seq<char>>,
) -> Seq<char> {
    "{\"host_id\":"@ + jstr(host) + ",\"provider_ref\":"@ + jstr(provider_ref)
        + ",\"provider_id\":"@ + jstr(provider_id) + ",\"annotations\":"@ + jobj_opt(annotations)
        + ",\"config\":"@ + jarr(config) + seq!['}']
}

/// Writes the start-provider command body.
pub fn encode_start_provider_cmd(
    host_id: &str,
    provider_ref: &str,
    provider_id: &str,
    annotations: &Option<Vec<(String, String)>>,
    config: &Vec<String>,
) -> (r: String)
    ensures
        r@ == spec_start_provider_cmd(
            host_id@,
            provider_ref@,
            provider_id@,
            annotations.deep_view(),
            config.deep_view(),
        ),
{
    let mut s = String::from_str("{\"host_id\":");
    append_jstr(&mut s, host_id);
    s.append(",\"provider_ref\":");
    append_jstr(&mut s, provider_ref);
    s.append(",\"provider_id\":");
    append_jstr(&mut s, provider_id);
    s.append(",\"annotations\":");
    append_jobj_opt(&mut s, annotations);
    s.append(",\"config\":");
    append_jarr(&mut s, config);
    s.append("}");
    proof {
        reveal_strlit("}");
        assert("}"@ =~= seq!['}']);
        assert(s@ =~= spec_start_provider_cmd(
            host_id@,
            provider_ref@,
            provider_id@,
            annotations.deep_view(),
            config.deep_view(),
        ));
    }
    s
}

/// The wire text of the stop-provider command.
pub open spec fn spec_stop_provider_cmd(host: Seq<char>, provider_id: Seq<char>) -> Seq<char> {
    "{\"host_id\":"@ + jstr(host) + ",\"provider_id\":"@ + jstr(provider_id) + seq!['}']
}

/// Writes the stop-provider command body.
pub fn encode_stop_provider_cmd(host_id: &str, provider_id: &str) -> (r: String)
    ensures
        r@ == spec_stop_provider_cmd(host_id@, provider_id@),
{
    let mut s = String::from_str("{\"host_id\":");
    append_jstr(&mut s, host_id);
    s.append(",\"provider_id\":");
    append_jstr(&mut s, provider_id);
    s.append("}");
    proof {
        reveal_strlit("}");
        assert("}"@ =~= seq!['}']);
        assert(s@ =~= spec_stop_provider_cmd(host_id@, provider_id@));
    }
    s
}

/// The wire text of the stop-host command; the optional grace period is
/// carried in milliseconds.
pub open spec fn spec_stop_host_cmd(host: Seq<char>, timeout_ms: Option<u64>) -> Seq<char> {
    "{\"host_id\":"@ + jstr(host) + ",\"timeout\":"@ + jnum_opt(timeout_ms) + seq!['}']
}

/// Writes the stop-host command body.
pub fn encode_stop_host_cmd(host_id: &str, timeout_ms: &Option<u64>) -> (r: String)
    ensures
        r@ == spec_stop_host_cmd(host_id@, match *timeout_ms {
            Some(n) => Some(n),
            None => None,
        }),
{
    let mut s = String::from_str("{\"host_id\":");
    append_jstr(&mut s, host_id);
    s.append(",\"timeout\":");
    append_jnum_opt(&mut s, timeout_ms);
    s.append("}");
    proof {
        reveal_strlit("}");
        assert("}"@ =~= seq!['}']);
        assert(s@ =~= spec_stop_host_cmd(host_id@, match *timeout_ms {
            Some(n) => Some(n),
            None => None,
        }));
    }
    s
}

/// The wire text of a host label write.
pub open spec fn spec_host_label(key: Seq<char>, value: Seq<char>) -> Seq<char> {
    "{\"key\":"@ + jstr(key) + ",\"value\":"@ + jstr(value) + seq!['}']
}

/// Writes a host label body.
pub fn encode_host_label(key: &str, value: &str) -> (r: String)
    ensures
        r@ == spec_host_label(key@, value@),
{
    let mut s = String::from_str("{\"key\":");
    append_jstr(&mut s, key);
    s.append(",\"value\":");
    append_jstr(&mut s, value);
    s.append("}");
    proof {
        reveal_strlit("}");
        assert("}"@ =~= seq!['}']);
        assert(s@ =~= spec_host_label(key@, value@));
    }
    s
}

/// The wire text of a host label delete, naming the key alone.
pub open spec fn spec_host_label_key(key: Seq<char>) -> Seq<char> {
    "{\"key\":"@ + jstr(key) + seq!['}']
}

/// Writes a host label delete body.
pub fn encode_host_label_key(key: &str) -> (r: String)
    ensures
        r@ == spec_host_label_key(key@),
{
    let mut s = String::from_str("{\"key\":");
    append_jstr(&mut s, key);
    s.append("}");
    proof {
        reveal_strlit("}");
        assert("}"@ =~= seq!['}']);
        assert(s@ =~= spec_host_label_key(key@));
    }
    s
}

/// One link definition between a source and a target over a WIT interface.
#[derive(Debug, Clone, PartialEq, Eq)]
pub struct Link {
    /// The identity of the source of the link.
    pub source_id: String,
    /// The identity of the target of the link.
    pub target: String,
    /// The name of the link.
    pub name: String,
    /// The WIT namespace of the link.
    pub wit_namespace: String,
    /// The WIT package of the link.
    pub wit_package: String,
    /// The interfaces the link covers.
    pub interfaces: Vec<String>,
}

/// The mathematical shadow of a [`Link`].
pub ghost struct LinkView {
    pub source_id: Seq<char>,
    pub target: Seq<char>,
    pub name: Seq<char>,
    pub wit_namespace: Seq<char>,
    pub wit_package: Seq<char>,
    pub interfaces: Seq<Seq<char>>,
}

impl View for Link {
    type V = LinkView;

    open spec fn view(&self) -> LinkView {
        LinkView {
            source_id: self.source_id@,
            target: self.target@,
            name: self.name@,
            wit_namespace: self.wit_namespace@,
            wit_package: self.wit_package@,
            interfaces: self.interfaces.deep_view(),
        }
    }
}

impl Default for Link {
    /// An empty link; every field must be filled before validation can
    /// accept it.
    fn default() -> (r: Link)
        ensures
            r@.source_id.len() == 0 && r@.target.len() == 0 && r@.name.len() == 0
                && r@.wit_namespace.len() == 0 && r@.wit_package.len() == 0
                && r@.interfaces.len() == 0,
    {
        Link {
            source_id: String::new(),
            target: String::new(),
            name: String::new(),
            wit_namespace: String::new(),
            wit_package: String::new(),
            interfaces: Vec::new(),
        }
    }
}

/// The wire text of a link-put write.
pub open spec fn spec_link(l: LinkView) -> Seq<char> {
    "{\"source_id\":"@ + jstr(l.source_id) + ",\"target\":"@ + jstr(l.target) + ",\"name\":"@
        + jstr(l.name) + ",\"wit_namespace\":"@ + jstr(l.wit_namespace) + ",\"wit_package\":"@
        + jstr(l.wit_package) + ",\"interfaces\":"@ + jarr(l.interfaces) + seq!['}']
}

/// Writes a link-put body.
pub fn encode_link(l: &Link) -> (r: String)
    ensures
        r@ == spec_link(l@),
{
    let mut s = String::from_str("{\"source_id\":");
    append_jstr(&mut s, l.source_id.as_str());
    s.append(",\"target\":");
    append_jstr(&mut s, l.target.as_str());
    s.append(",\"name\":");
    append_jstr(&mut s, l.name.as_str());
    s.append(",\"wit_namespace\":");
    append_jstr(&mut s, l.wit_namespace.as_str());
    s.append(",\"wit_package\":");
    append_jstr(&mut s, l.wit_package.as_str());
    s.append(",\"interfaces\":");
    append_jarr(&mut s, &l.interfaces);
    s.append("}");
    proof {
        reveal_strlit("}");
        assert("}"@ =~= seq!['}']);
        assert(s@ =~= spec_link(l@));
    }
    s
}

/// The wire text of a link-delete write, naming the link by its source
/// and metadata.
pub open spec fn spec_delete_link(
    source_id: Seq<char>,
    name: Seq<char>,
    wit_namespace: Seq<char>,
    wit_package: Seq<char>,
) -> Seq<char> {
    "{\"source_id\":"@ + jstr(source_id) + ",\"name\":"@ + jstr(name) + ",\"wit_namespace\":"@
        + jstr(wit_namespace) + ",\"wit_package\":"@ + jstr(wit_package) + seq!['}']
}

/// Writes a link-delete body.
pub fn encode_delete_link(
    source_id: &str,
    name: &str,
    wit_namespace: &str,
    wit_package: &str,
) -> (r: String)
    ensures
        r@ == spec_delete_link(source_id@, name@, wit_namespace@, wit_package@),
{
    let mut s = String::from_str("{\"source_id\":");
    append_jstr(&mut s, source_id);
    s.append(",\"name\":");
    append_jstr(&mut s, name);
    s.append(",\"wit_namespace\":");
    append_jstr(&mut s, wit_namespace);
    s.append(",\"wit_package\":");
    append_jstr(&mut s, wit_package);
    s.append("}");
    proof {
        reveal_strlit("}");
        assert("}"@ =~= seq!['}']);
        assert(s@ =~= spec_delete_link(source_id@, name@, wit_namespace@, wit_package@));
    }
    s
}

/// Credentials for one artifact registry.  The payload of a registries
/// write carries secrets: callers are expected to isolate it accordingly.
#[derive(Debug, Clone, PartialEq, Eq)]
pub struct RegistryCredential {
    /// The username to authenticate with, if any.
    pub username: Option<String>,
    /// The password to authenticate with, if any.
    pub password: Option<String>,
    /// A token to authenticate with, if any.
    pub token: Option<String>,
    /// The kind of registry the credentials unlock.
    pub registry_type: String,
}

/// The mathematical shadow of a [`RegistryCredential`].
pub ghost struct RegistryCredentialView {
    pub username: Option<Seq<char>>,
    pub password: Option<Seq<char>>,
    pub token: Option<Seq<char>>,
    pub registry_type: Seq<char>,
}

impl View for RegistryCredential {
    type V = RegistryCredentialView;

    open spec fn view(&self) -> RegistryCredentialView {
        RegistryCredentialView {
            username: self.username.deep_view(),
            password: self.password.deep_view(),
            token: self.token.deep_view(),
            registry_type: self.registry_type@,
        }
    }
}

impl DeepView for RegistryCredential {
    type V = RegistryCredentialView;

    open spec fn deep_view(&self) -> RegistryCredentialView {
        self.view()
    }
}

/// The wire text of one registry credential.
pub open spec fn spec_registry_credential(c: RegistryCredentialView) -> Seq<char> {
    "{\"username\":"@ + jstr_opt(c.username) + ",\"password\":"@ + jstr_opt(c.password)
        + ",\"token\":"@ + jstr_opt(c.token) + ",\"registry_type\":"@ + jstr(c.registry_type)
        + seq!['}']
}

/// Writes one registry credential.
fn append_registry_credential(out: &mut String, c: &RegistryCredential)
    ensures
        final(out)@ == old(out)@ + spec_registry_credential(c@),
{
    out.append("{\"username\":");
    append_jstr_opt(out, &c.username);
    out.append(",\"password\":");
    append_jstr_opt(out, &c.password);
    out.append(",\"token\":");
    append_jstr_opt(out, &c.token);
    out.append(",\"registry_type\":");
    append_jstr(out, c.registry_type.as_str());
    out.append("}");
    proof {
        reveal_strlit("}");
        assert("}"@ =~= seq!['}']);
        assert(out@ =~= old(out)@ + spec_registry_credential(c@));
    }
}

/// The comma-joined members of a registry credential map.
pub open spec fn join_creds(ps: Seq<(Seq<char>, RegistryCredentialView)>) -> Seq<char>
    decreases ps.len(),
{
    if ps.len() == 0 {
        Seq::empty()
    } else if ps.len() == 1 {
        jstr(ps[0].0) + seq![':'] + spec_registry_credential(ps[0].1)
    } else {
        join_creds(ps.drop_last()) + seq![','] + jstr(ps.last().0) + seq![':']
            + spec_registry_credential(ps.last().1)
    }
}

/// The wire text of a registry credential map, keyed by registry name.
pub open spec fn spec_registries(ps: Seq<(Seq<char>, RegistryCredentialView)>) -> Seq<char> {
    seq!['{'] + join_creds(ps) + seq!['}']
}

/// Writes a registry credential map.
pub fn encode_registries(regs: &Vec<(String, RegistryCredential)>) -> (r: String)
    ensures
        r@ == spec_registries(regs.deep_view()),
{
    let mut s = String::from_str("{");
    let n = regs.len();
    let ghost start = s@;
    let mut i: usize = 0;
    while i < n
        invariant
            0 <= i <= n,
            n == regs.deep_view().len(),
            regs.deep_view().len() == regs@.len(),
            forall|k: int|
                0 <= k < n ==> #[trigger] regs.deep_view()[k] == (regs@[k].0@, regs@[k].1@),
            s@ == start + join_creds(regs.deep_view().take(i as int)),
        decreases n - i,
    {
        if i > 0 {
            s.append(",");
        }
        append_jstr(&mut s, regs[i].0.as_str());
        s.append(":");
        append_registry_credential(&mut s, &regs[i].1);
        proof {
            reveal_strlit(",");
            reveal_strlit(":");
            let t = regs.deep_view().take(i + 1);
            assert(t.drop_last() =~= regs.deep_view().take(i as int));
            assert(t.last() == regs.deep_view()[i as int]);
            assert(":"@ =~= seq![':']);
            if i == 0 {
                assert(regs.deep_view().take(0int) =~= Seq::<
                    (Seq<char>, RegistryCredentialView),
                >::empty());
                assert(s@ =~= start + join_creds(t));
            } else {
                assert(s@ =~= start + join_creds(t));
            }
        }
        i = i + 1;
    }
    s.append("}");
    proof {
        reveal_strlit("{");
        reveal_strlit("}");
        assert(regs.deep_view().take(n as int) =~= regs.deep_view());
        assert(s@ =~= spec_registries(regs.deep_view()));
    }
    s
}

/// The wire text of a component auction request: the component's
/// reference and id, and the constraints that govern placement.
pub open spec fn spec_component_auction_req(
    component_ref: Seq<char>,
    component_id: Seq<char>,
    constraints: Seq<(Seq<char>, Seq<char>)>,
) -> Seq<char> {
    "{\"component_ref\":"@ + jstr(component_ref) + ",\"component_id\":"@ + jstr(component_id)
        + ",\"constraints\":"@ + jobj(constraints) + seq!['}']
}

/// Writes a component auction request body.
pub fn encode_component_auction_req(
    component_ref: &str,
    component_id: &str,
    constraints: &Vec<(String, String)>,
) -> (r: String)
    ensures
        r@ == spec_component_auction_req(
            component_ref@,
            component_id@,
            constraints.deep_view(),
        ),
{
    let mut s = String::from_str("{\"component_ref\":");
    append_jstr(&mut s, component_ref);
    s.append(",\"component_id\":");
    append_jstr(&mut s, component_id);
    s.append(",\"constraints\":");
    append_jobj(&mut s, constraints);
    s.append("}");
    proof {
        reveal_strlit("}");
        assert("}"@ =~= seq!['}']);
        assert(s@ =~= spec_component_auction_req(
            component_ref@,
            component_id@,
            constraints.deep_view(),
        ));
    }
    s
}

/// The wire text of a provider auction request.
pub open spec fn spec_provider_auction_req(
    provider_ref: Seq<char>,
    provider_id: Seq<char>,
    constraints: Seq<(Seq<char>, Seq<char>)>,
) -> Seq<char> {
    "{\"provider_ref\":"@ + jstr(provider_ref) + ",\"provider_id\":"@ + jstr(provider_id)
        + ",\"constraints\":"@ + jobj(constraints) + seq!['}']
}

/// Writes a provider auction request body.
pub fn encode_provider_auction_req(
    provider_ref: &str,
    provider_id: &str,
    constraints: &Vec<(String, String)>,
) -> (r: String)
    ensures
        r@ == spec_provider_auction_req(
            provider_ref@,
            provider_id@,
            constraints.deep_view(),
        ),
{
    let mut s = String::from_str("{\"provider_ref\":");
    append_jstr(&mut s, provider_ref);
    s.append(",\"provider_id\":");
    append_jstr(&mut s, provider_id);
    s.append(",\"constraints\":");
    append_jobj(&mut s, constraints);
    s.append("}");
    proof {
        reveal_strlit("}");
        assert("}"@ =~= seq!['}']);
        assert(s@ =~= spec_provider_auction_req(
            provider_ref@,
            provider_id@,
            constraints.deep_view(),
        ));
    }
    s
}

/// Writes a named-config body: a JSON object of its key-value pairs.
pub fn encode_config_map(pairs: &Vec<(String, String)>) -> (r: String)
    ensures
        r@ == jobj(pairs.deep_view()),
{
    let mut s = String::new();
    append_jobj(&mut s, pairs);
    proof {
        assert(s@ =~= jobj(pairs.deep_view()));
    }
    s
}

} // verus!
