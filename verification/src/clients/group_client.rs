//! URL building for the group endpoints. The embedding application issues
//! the HTTP calls; everything it sends is computed here.
use vstd::prelude::*;

use crate::get_url;
use crate::pagination_params_spec;
use crate::query_string_spec;
use crate::params_view;
use crate::ApiEndpoint;
use crate::Pagination;
use crate::QueryParams;
use crate::models::global_types::GroupId;
use crate::text::dec_int;
use crate::text::i64_to_string;

verus! {

/// The group endpoints, each with what its path carries.
pub enum GroupEndPoints {
    Search,
    GetGroupDetails(GroupId),
    CreateGroup,
}

impl GroupEndPoints {
    /// The path of this endpoint under the API root.
    pub open spec fn url_spec(self) -> Seq<char> {
        match self {
            GroupEndPoints::Search => "/groups"@,
            GroupEndPoints::GetGroupDetails(id) => "/groups"@ + seq!['/'] + dec_int(id as int),
            GroupEndPoints::CreateGroup => "/groups"@,
        }
    }

    pub fn url(&self) -> (r: String)
        ensures
            r@ == self.url_spec(),
    {
        match self {
            GroupEndPoints::Search => ApiEndpoint::Group.as_str().to_owned(),
            GroupEndPoints::GetGroupDetails(id) => {
                let mut out = ApiEndpoint::Group.as_str().to_owned();
                crate::text::push_char(&mut out, '/');
                let digits = i64_to_string(*id);
                out.append(digits.as_str());
                out
            },
            GroupEndPoints::CreateGroup => ApiEndpoint::Group.as_str().to_owned(),
        }
    }
}

/// The URL of a group search: the pagination window's parameters when one is
/// given, then the searched name.
pub fn search_url(base_url: &str, name: &str, pagination: Option<Pagination>) -> (r: String)
    ensures
        r@ == base_url@ + "/groups"@ + query_string_spec(
            pagination_params_spec(pagination) + seq![("name"@, name@)],
        ),
{
    let mut queries: QueryParams = match pagination {
        Some(p) => p.to_query(),
        None => Vec::new(),
    };
    queries.push(("name".to_owned(), name.to_owned()));
    proof {
        assert(params_view(queries@) =~= pagination_params_spec(pagination) + seq![
            ("name"@, name@),
        ]);
    }
    get_url(base_url, GroupEndPoints::Search.url(), Some(&queries))
}

} // verus!
