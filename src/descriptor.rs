//! The resource descriptor: what the attributes of a resource say, checked
//! for consistency.

use vstd::prelude::*;
use crate::attributes::{
    actix_restful_info, http_create, http_find_list_delete, http_update, restful_info,
    type_list_of_len,
};
use crate::grammar::{ident_at, is_ident};
use crate::routes::{build_routes, collection_path, route_table, route_views, Route};
use crate::text::{chars_of, concat};

verus! {

/// The attributes that describe a resource, and the resource's own name.
#[derive(Debug, Clone, Copy, PartialEq, Eq, Structural)]
pub enum Attribute {
    Resource,
    FindListDelete,
    Create,
    Update,
    RestfulInfo,
}

/// Why a resource description is refused.
#[derive(Debug, Clone, Copy, PartialEq, Eq, Structural)]
pub enum DescriptorError {
    /// The attribute's text does not follow its grammar, or names the wrong
    /// number of types.
    Malformed(Attribute),
    /// The route information names a field other than `scope` and `path`.
    UnknownField,
    /// The route information gives a field twice.
    DuplicateField,
    /// The route information leaves out `scope` or `path`.
    MissingField,
    /// `scope` or `path` is the empty string.
    EmptyField,
    /// The attributes disagree on a type that they share, or the update
    /// attribute names another resource than the one described.
    Inconsistent,
}

/// A resource as its attributes describe it: the names of its types, and
/// where its routes live.
pub struct ResourceDescriptor {
    pub resource: String,
    pub identifier_type: String,
    pub find_query_type: String,
    pub list_query_type: String,
    pub delete_query_type: String,
    pub create_query_type: String,
    pub update_query_type: String,
    pub app_state: String,
    pub scope: String,
    pub path: String,
}

/// The contents of a `ResourceDescriptor`.
pub struct DescriptorView {
    pub resource: Seq<char>,
    pub identifier_type: Seq<char>,
    pub find_query_type: Seq<char>,
    pub list_query_type: Seq<char>,
    pub delete_query_type: Seq<char>,
    pub create_query_type: Seq<char>,
    pub update_query_type: Seq<char>,
    pub app_state: Seq<char>,
    pub scope: Seq<char>,
    pub path: Seq<char>,
}

impl DescriptorView {
    /// Every type slot names a type, and scope and path are not empty.
    pub open spec fn well_formed(self) -> bool {
        &&& is_ident(self.resource)
        &&& is_ident(self.identifier_type)
        &&& is_ident(self.find_query_type)
        &&& is_ident(self.list_query_type)
        &&& is_ident(self.delete_query_type)
        &&& is_ident(self.create_query_type)
        &&& is_ident(self.update_query_type)
        &&& is_ident(self.app_state)
        &&& self.scope.len() > 0
        &&& self.path.len() > 0
    }
}

impl View for ResourceDescriptor {
    type V = DescriptorView;

    open spec fn view(&self) -> DescriptorView {
        DescriptorView {
            resource: self.resource@,
            identifier_type: self.identifier_type@,
            find_query_type: self.find_query_type@,
            list_query_type: self.list_query_type@,
            delete_query_type: self.delete_query_type@,
            create_query_type: self.create_query_type@,
            update_query_type: self.update_query_type@,
            app_state: self.app_state@,
            scope: self.scope@,
            path: self.path@,
        }
    }
}

/// The descriptor that the resource name and the four attribute texts give,
/// or the first reason to refuse them: the resource name, then each
/// attribute in turn, then their agreement. The update attribute must name
/// the same identifier type, find query and state as the find/list/delete
/// attribute, and the resource itself as the type that is looked up; the
/// create attribute must name the same state.
pub open spec fn spec_descriptor(
    resource: Seq<char>,
    find_list_delete: Seq<char>,
    create: Seq<char>,
    update: Seq<char>,
    info: Seq<char>,
) -> Result<DescriptorView, DescriptorError> {
    if !is_ident(resource) {
        Err(DescriptorError::Malformed(Attribute::Resource))
    } else {
        match type_list_of_len(find_list_delete, 5) {
            None => Err(DescriptorError::Malformed(Attribute::FindListDelete)),
            Some(f) => match type_list_of_len(create, 2) {
                None => Err(DescriptorError::Malformed(Attribute::Create)),
                Some(c) => match type_list_of_len(update, 5) {
                    None => Err(DescriptorError::Malformed(Attribute::Update)),
                    Some(u) => match restful_info(info) {
                        Err(e) => Err(e),
                        Ok((scope, path)) => if u[0] != f[0] || u[2] != resource || u[3] != f[1]
                            || u[4] != f[4] || c[1] != f[4] {
                            Err(DescriptorError::Inconsistent)
                        } else {
                            Ok(
                                DescriptorView {
                                    resource,
                                    identifier_type: f[0],
                                    find_query_type: f[1],
                                    list_query_type: f[2],
                                    delete_query_type: f[3],
                                    create_query_type: c[0],
                                    update_query_type: u[1],
                                    app_state: f[4],
                                    scope,
                                    path,
                                },
                            )
                        },
                    },
                },
            },
        }
    }
}

impl ResourceDescriptor {
    /// Builds the descriptor of `resource` from the argument texts of its
    /// attributes.
    pub fn parse(
        resource: &str,
        find_list_delete: &str,
        create: &str,
        update: &str,
        info: &str,
    ) -> (r: Result<ResourceDescriptor, DescriptorError>)
        ensures
            match spec_descriptor(resource@, find_list_delete@, create@, update@, info@) {
                Ok(d) => r matches Ok(x) && x@ == d,
                Err(e) => r matches Err(f) && f == e,
            },
            r matches Ok(x) ==> x@.well_formed(),
    {
        let rc = chars_of(resource);
        assert(rc@.subrange(0, rc@.len() as int) =~= resource@);
        if !ident_at(&rc, 0, rc.len()) {
            return Err(DescriptorError::Malformed(Attribute::Resource));
        }
        let f = match http_find_list_delete(find_list_delete) {
            Ok(f) => f,
            Err(e) => {
                return Err(e);
            },
        };
        let c = match http_create(create) {
            Ok(c) => c,
            Err(e) => {
                return Err(e);
            },
        };
        let u = match http_update(update) {
            Ok(u) => u,
            Err(e) => {
                return Err(e);
            },
        };
        let info = match actix_restful_info(info) {
            Ok(i) => i,
            Err(e) => {
                return Err(e);
            },
        };
        let name = resource.to_owned();
        if !(u.id == f.id) || !(u.output == name) || !(u.find_query == f.find_query) || !(
        u.app_state == f.app_state) || !(c.app_state == f.app_state) {
            return Err(DescriptorError::Inconsistent);
        }
        Ok(
            ResourceDescriptor {
                resource: name,
                identifier_type: f.id,
                find_query_type: f.find_query,
                list_query_type: f.list_query,
                delete_query_type: f.delete_query,
                create_query_type: c.query,
                update_query_type: u.query,
                app_state: f.app_state,
                scope: info.scope,
                path: info.path,
            },
        )
    }

    /// The five routes of the resource.
    pub fn routes(&self) -> (r: Vec<Route>)
        ensures
            route_views(r@) == route_table(self.scope@, self.path@),
    {
        build_routes(self.scope.as_str(), self.path.as_str())
    }

    /// The prefix of the resource's routes: scope, `/`, path.
    pub fn collection_path(&self) -> (r: String)
        ensures
            r@ == collection_path(self.scope@, self.path@),
    {
        let with_slash = concat(self.scope.as_str(), "/");
        concat(with_slash.as_str(), self.path.as_str())
    }
}

} // verus!
