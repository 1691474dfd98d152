//! The template engine: minijinja behind a few trusted declarations.
//!
//! The engine is modelled as a store of templates — source text by name —
//! plus the directory its loader resolves missing names under. Two names,
//! `templates_of` and `loader_dir_of`, stand for those; the trusted
//! declarations below say how each call moves them, as far as the engine's
//! source shows it. What a render returns depends on the stored text — and,
//! behind the loader, on the file system — so no clause pins the rendered
//! text itself; every caller handles both outcomes, and the mapping from
//! outcome to response is verified where the outcome is an argument.

use std::collections::BTreeMap;

use vstd::prelude::*;

use crate::handlers::RenderFault;

verus! {

/// minijinja's template engine, opaque to the verifier: a value of it is
/// only created, configured and queried through the wrappers below.
#[verifier::external_type_specification]
#[verifier::external_body]
pub struct ExEnvironment<'source>(minijinja::Environment<'source>);

/// minijinja's handle to one stored template, opaque to the verifier.
#[verifier::external_type_specification]
#[verifier::external_body]
pub struct ExTemplate<'env: 'source, 'source>(minijinja::Template<'env, 'source>);

/// What the engine's template store holds: template source text by
/// template name.
pub uninterp spec fn templates_of(env: minijinja::Environment<'static>) -> Map<Seq<char>, Seq<char>>;

/// The directory the engine's loader resolves missing template names
/// under; unconstrained until a loader is set.
pub uninterp spec fn loader_dir_of(env: minijinja::Environment<'static>) -> Seq<char>;

/// A store with nothing in it.
pub open spec fn no_templates() -> Map<Seq<char>, Seq<char>> {
    Map::<Seq<char>, Seq<char>>::empty()
}

/// Relies on minijinja's `Environment::new`: a fresh engine with the
/// default configuration and an empty template store.
#[verifier::external_body]
pub(crate) fn new_engine() -> (r: minijinja::Environment<'static>)
    ensures
        templates_of(r) == no_templates(),
{
    minijinja::Environment::new()
}

/// Relies on minijinja's `Environment::set_loader` and `path_loader`: the
/// engine comes back with its store untouched, resolving missing template
/// names against files under `dir` from now on.
#[verifier::external_body]
pub(crate) fn set_template_dir(env: minijinja::Environment<'static>, dir: &str) -> (r:
    minijinja::Environment<'static>)
    ensures
        templates_of(r) == templates_of(env),
        loader_dir_of(r) == dir@,
{
    let mut env = env;
    env.set_loader(minijinja::path_loader(dir));
    env
}

/// Relies on minijinja's `Environment::add_template_owned`: on success the
/// store maps the name to the source from now on; a template syntax error
/// is the one failure, and the loader directory is never touched.
#[verifier::external_body]
pub(crate) fn store_template(
    env: &mut minijinja::Environment<'static>,
    name: &str,
    source: &str,
) -> (r: Result<(), RenderFault>)
    ensures
        r is Ok ==> templates_of(*final(env)) == templates_of(*old(env)).insert(name@, source@),
        r is Err ==> r->Err_0 == RenderFault::RenderFailed,
        loader_dir_of(*final(env)) == loader_dir_of(*old(env)),
{
    match env.add_template_owned(name.to_owned(), source.to_owned()) {
        Ok(()) => Ok(()),
        Err(_) => Err(RenderFault::RenderFailed),
    }
}

/// Relies on minijinja's `Environment::get_template` and `Error::kind`:
/// looks the template up by name, telling a missing template apart from
/// every other fault. A name the store holds is always found; only a name
/// it does not hold goes to the loader, whose outcome the file system
/// decides.
#[verifier::external_body]
pub(crate) fn find_template<'env>(env: &'env minijinja::Environment<'static>, name: &str) -> (r:
    Result<minijinja::Template<'env, 'env>, RenderFault>)
    ensures
        templates_of(*env).contains_key(name@) ==> r is Ok,
{
    match env.get_template(name) {
        Ok(template) => Ok(template),
        Err(e) => if matches!(e.kind(), minijinja::ErrorKind::TemplateNotFound) {
            Err(RenderFault::TemplateNotFound)
        } else {
            Err(RenderFault::RenderFailed)
        },
    }
}

/// Relies on minijinja's `Template::render`: fills the template's
/// placeholders from a one-entry context mapping `key` to `value`. The
/// template was already found, so every failure is a render failure.
#[verifier::external_body]
pub(crate) fn render_with_value<'env, 'source>(
    template: &minijinja::Template<'env, 'source>,
    key: &str,
    value: &str,
) -> (r: Result<String, RenderFault>)
    ensures
        r is Err ==> r->Err_0 == RenderFault::RenderFailed,
{
    let mut context = BTreeMap::new();
    context.insert(key, value);
    match template.render(&context) {
        Ok(text) => Ok(text),
        Err(_) => Err(RenderFault::RenderFailed),
    }
}

/// Render a named template with a one-entry context: the rendered text, or
/// the fault that stopped the render. The text itself depends on the stored
/// template source, so no clause pins it; but a name the store holds is
/// never reported missing — for it, the only possible fault is a render
/// failure.
pub fn render_template(
    env: &minijinja::Environment<'static>,
    name: &str,
    key: &str,
    value: &str,
) -> (r: Result<String, RenderFault>)
    ensures
        templates_of(*env).contains_key(name@) && r is Err ==> r->Err_0
            == RenderFault::RenderFailed,
{
    match find_template(env, name) {
        Ok(template) => render_with_value(&template, key, value),
        Err(fault) => Err(fault),
    }
}

} // verus!
