//! The client: the base of the API and the credential, from which listings
//! and searches start.

use vstd::prelude::*;
use vstd::string::StringExecFns;

use crate::error::ClientError;
use crate::http::accepted_as_header_value;
use crate::http::header_text_ok;
use crate::listing::ListingView;
use crate::listing::ProjectListing;
use crate::search::ProjectSearch;
use crate::search::SearchView;
use crate::text::chars_of;
use crate::text::ends_with;
use crate::text::without_trailing_slash;

verus! {

/// The API that is used where none is named.
pub open spec fn default_base_url() -> Seq<char> {
    "https://gitlab.com/api/v4"@
}

/// The path segment that names the version of the API.
pub open spec fn api_suffix() -> Seq<char> {
    "/api/v4"@
}

/// The address that was given, or the default, without a trailing slash.
pub open spec fn trimmed_base_url(given: Option<Seq<char>>) -> Seq<char> {
    without_trailing_slash(
        match given {
            Some(url) => url,
            None => default_base_url(),
        },
    )
}

/// Whether the address that was given lacks the segment that names the
/// version of the API.
pub open spec fn lacks_api_suffix(given: Option<Seq<char>>) -> bool {
    !api_suffix().is_suffix_of(trimmed_base_url(given))
}

/// The base of the API under the address that was given: without a trailing
/// slash, and with the segment that names the version of the API at its
/// end, appended where it was missing.
pub open spec fn normalized_base_url(given: Option<Seq<char>>) -> Seq<char> {
    if lacks_api_suffix(given) {
        trimmed_base_url(given) + api_suffix()
    } else {
        trimmed_base_url(given)
    }
}

/// What the `Authorization` header carries for the credential `token`.
pub open spec fn bearer(token: Seq<char>) -> Seq<char> {
    "Bearer "@ + token
}

/// A client as contracts see it.
pub struct ClientView {
    pub base_url: Seq<char>,
    pub authorization: Seq<char>,
    pub suffix_appended: bool,
}

/// What every request to the host shares: the base of the API and the
/// credential.
pub struct GitLabClient {
    base_url: String,
    authorization: String,
    suffix_appended: bool,
}

impl View for GitLabClient {
    type V = ClientView;

    closed spec fn view(&self) -> ClientView {
        ClientView {
            base_url: self.base_url@,
            authorization: self.authorization@,
            suffix_appended: self.suffix_appended,
        }
    }
}

impl GitLabClient {
    #[verifier::type_invariant]
    spec fn credential_fits(&self) -> bool {
        header_text_ok(self.authorization@)
    }

    /// Sets up a client for the credential `token` and the API at
    /// `base_url`, or at the default where none is given.
    ///
    /// Fails exactly when the credential cannot be carried in a header.
    pub fn new(token: String, base_url: Option<String>) -> (client: Result<GitLabClient, ClientError>)
        ensures
            client is Ok <==> header_text_ok(bearer(token@)),
            client matches Ok(c) ==> c@ == (ClientView {
                base_url: normalized_base_url(base_url.deep_view()),
                authorization: bearer(token@),
                suffix_appended: lacks_api_suffix(base_url.deep_view()),
            }),
            client matches Err(e) ==> e == ClientError::InvalidCredential,
    {
        let mut authorization = String::from_str("Bearer ");
        authorization.append(token.as_str());
        if !accepted_as_header_value(authorization.as_str()) {
            return Err(ClientError::InvalidCredential);
        }
        let given = match base_url {
            Some(url) => url,
            None => String::from_str("https://gitlab.com/api/v4"),
        };
        let chars = chars_of(given.as_str());
        let mut kept = chars.len();
        if kept > 0 && chars[kept - 1] == '/' {
            kept -= 1;
        }
        let mut url = String::from_str(given.as_str().substring_char(0, kept));
        assert(url@ == trimmed_base_url(base_url.deep_view()));
        let trimmed = chars_of(url.as_str());
        let suffix = chars_of("/api/v4");
        let suffix_appended = !ends_with(&trimmed, &suffix);
        if suffix_appended {
            url.append("/api/v4");
        }
        Ok(GitLabClient { base_url: url, authorization, suffix_appended })
    }

    /// The base of the API, under which every endpoint lies.
    pub fn base_url(&self) -> (base_url: &str)
        ensures
            base_url@ == self@.base_url,
    {
        self.base_url.as_str()
    }

    /// What to send in the `Authorization` header of every request.
    pub fn authorization(&self) -> (authorization: &str)
        ensures
            authorization@ == self@.authorization,
            header_text_ok(authorization@),
    {
        proof {
            use_type_invariant(self);
        }
        self.authorization.as_str()
    }

    /// Whether the address that was given lacked the segment that names
    /// the version of the API, so that it was appended.
    pub fn suffix_appended(&self) -> (appended: bool)
        ensures
            appended == self@.suffix_appended,
    {
        self.suffix_appended
    }

    /// Starts a listing of repositories: those of the group `group_id` and
    /// its subgroups, or all that the credential can see where no group is
    /// given.
    pub fn get_projects(&self, group_id: Option<&str>) -> (listing: ProjectListing)
        ensures
            listing@ == ListingView::initial(self@.base_url, group_id.deep_view()),
            listing@.page < i32::MAX,
    {
        ProjectListing::new(self.base_url.as_str(), group_id)
    }

    /// Starts the search of the repository `project_id` for `query`.
    pub fn search_in_project(&self, project_id: u64, query: &str) -> (search: ProjectSearch)
        ensures
            search@ == SearchView::initial(self@.base_url, project_id, query@),
    {
        ProjectSearch::new(self.base_url.as_str(), project_id, query)
    }
}

} // verus!
