use vstd::prelude::*;
use crate::desired::DesiredState;
use crate::error::ReconcileError;
use crate::ports::{ascending_ports, canonical_ports};

verus! {

/// The proxy configuration: one stream server per port, each forwarding to
/// the same port at the cluster's public address.
pub const CONFIG_TEMPLATE: &'static str = "events {}\n\nstream {\n{{#each ports}}\n    server {\n        listen {{this}};\n        proxy_pass {{../ip}}:{{this}};\n    }\n{{/each}}\n}\n";

/// The text that handlebars makes of `template` with the data
/// `{ ports, ip: address }`.
pub uninterp spec fn template_output(template: Seq<char>, ports: Seq<i32>, address: Seq<char>) -> Seq<char>;

#[verifier::external_type_specification]
#[verifier::external_body]
pub struct ExRenderError(handlebars::RenderError);

/// Relies on handlebars' `Registry::render_template` on a fresh registry:
/// the text depends on the template and the data alone. The proxy template
/// compiles, the registry is not strict (a missing value renders empty), its
/// `each` helper walks the port array, and the output goes to an in-memory
/// writer that never fails, so rendering it always succeeds.
#[verifier::external_body]
fn fill_template(template: &str, ports: &Vec<i32>, address: &str) -> (r: Result<
    String,
    handlebars::RenderError,
>)
    requires
        template@ == CONFIG_TEMPLATE@,
    ensures
        r is Ok,
        r matches Ok(t) ==> t@ == template_output(template@, ports@, address@),
{
    let mut data = std::collections::BTreeMap::new();
    data.insert("ports", handlebars::to_json(ports));
    data.insert("ip", handlebars::to_json(address));
    handlebars::Handlebars::new().render_template(template, &data)
}

/// A fully rendered configuration; two are the same exactly when their
/// texts are.
#[derive(Debug, Eq)]
pub struct RenderedConfig {
    pub text: String,
}

impl View for RenderedConfig {
    type V = Seq<char>;

    open spec fn view(&self) -> Seq<char> {
        self.text@
    }
}

impl PartialEq for RenderedConfig {
    fn eq(&self, o: &RenderedConfig) -> (r: bool) {
        self.text == o.text
    }
}

impl vstd::std_specs::cmp::PartialEqSpecImpl for RenderedConfig {
    open spec fn obeys_eq_spec() -> bool {
        true
    }

    open spec fn eq_spec(&self, o: &RenderedConfig) -> bool {
        self@ == o@
    }
}

impl Clone for RenderedConfig {
    fn clone(&self) -> (r: RenderedConfig)
        ensures
            r == *self,
    {
        RenderedConfig { text: self.text.clone() }
    }
}

impl RenderedConfig {
    /// Wraps configuration text, such as the file read back from the remote host.
    pub fn from_text(text: String) -> (r: RenderedConfig)
        ensures
            r.text == text,
    {
        RenderedConfig { text }
    }

    /// The configuration text.
    pub fn as_str(&self) -> (r: &str)
        ensures
            r@ == self@,
    {
        self.text.as_str()
    }
}

/// The text that `render` makes of a desired state: the template filled with
/// its ports in ascending order, each once, and its address.
pub open spec fn rendered_text(d: DesiredState) -> Seq<char> {
    template_output(CONFIG_TEMPLATE@, ascending_ports(d.port_set()), d.address@)
}

/// Renders the desired state into configuration text. Ports are listed in
/// ascending order, each once, so the text depends only on the port set.
/// The template is fixed and well formed, so rendering always succeeds; the
/// `Result` carries `TemplateError` for a malformed template.
pub fn render(state: &DesiredState) -> (r: Result<RenderedConfig, ReconcileError>)
    ensures
        r is Ok,
        r matches Ok(c) ==> c@ == rendered_text(*state),
{
    let ports = canonical_ports(&state.ports);
    match fill_template(CONFIG_TEMPLATE, &ports, state.address.as_str()) {
        Ok(text) => Ok(RenderedConfig { text }),
        Err(_) => Err(ReconcileError::TemplateError),
    }
}

/// Rendering is deterministic: desired states with the same port set and the
/// same address render to the same text, whatever the order of their ports.
pub proof fn lemma_render_deterministic(a: DesiredState, b: DesiredState)
    requires
        a.port_set() == b.port_set(),
        a.address@ == b.address@,
    ensures
        rendered_text(a) == rendered_text(b),
{
}

} // verus!
