//! The faker that answers HTTP requests from a list of canned routes: its
//! parameters, and what it decides for each request.

use vstd::prelude::*;
use crate::faker::ParamError;
use crate::text::str_eq;
use crate::utils::json::{compare_documents, same_document};

verus! {

/// The status of the answer when no route serves a request.
pub const NOT_FOUND: u16 = 404;

/// One canned answer: the request it is for and what to reply.
#[derive(Debug, PartialEq)]
pub struct Route {
    pub path: String,
    /// `GET`, `POST`, `DELETE` or `PUT`.
    pub method: String,
    pub status: u16,
    /// For `POST` and `PUT`: the JSON document that the request must carry.
    pub body: Option<String>,
    /// The JSON document to answer with.
    pub result: Option<String>,
}

/// What the server is asked to do.
#[derive(Debug, PartialEq)]
pub struct HttpServer {
    pub host_addr: String,
    pub routes: Vec<Route>,
    /// Where to write what the server remembers, after each change.
    pub output_file: Option<String>,
}

/// The request methods that a route can be for.
#[derive(Debug, Clone, Copy, PartialEq, Eq, Structural)]
pub enum Method {
    Get,
    Post,
    Delete,
    Put,
}

/// Why the server cannot start.
#[derive(Debug, Clone, Copy, PartialEq, Eq, Structural)]
pub enum ServerError {
    /// The route at this position names a method that is not served.
    MethodNotSupported { route: usize },
}

/// Which route a request falls to.
#[derive(Debug, Clone, Copy, PartialEq, Eq, Structural)]
pub enum Selection {
    /// The route at this position.
    Found(usize),
    /// None.
    NotFound,
    /// The search stopped at the route at this position: it is for this
    /// path and method, but its body, or the request's, is missing or is
    /// not JSON, so the two cannot be compared.
    Unusable(usize),
}

/// What answering does to the documents that the server remembers by path.
#[derive(Debug, Clone, Copy, PartialEq, Eq, Structural)]
pub enum StoreChange {
    /// Nothing.
    Keep,
    /// Remember the answer under the request's path.
    Insert,
    /// Forget what is remembered under the request's path.
    Remove,
}

/// An answer: the status, the JSON document to send (JSON `null` where there
/// is none), and what to do to the store.
#[derive(Debug, PartialEq)]
pub struct Reply {
    pub status: u16,
    pub body: Option<String>,
    pub store: StoreChange,
}

/// The method that a name stands for: upper case, nothing else.
pub open spec fn method_of(name: Seq<char>) -> Option<Method> {
    if name == "GET"@ {
        Some(Method::Get)
    } else if name == "POST"@ {
        Some(Method::Post)
    } else if name == "DELETE"@ {
        Some(Method::Delete)
    } else if name == "PUT"@ {
        Some(Method::Put)
    } else {
        None
    }
}

/// Reads a method by its name.
pub fn parse_method(name: &str) -> (method: Option<Method>)
    ensures
        method == method_of(name@),
{
    if str_eq(name, "GET") {
        Some(Method::Get)
    } else if str_eq(name, "POST") {
        Some(Method::Post)
    } else if str_eq(name, "DELETE") {
        Some(Method::Delete)
    } else if str_eq(name, "PUT") {
        Some(Method::Put)
    } else {
        None
    }
}

impl Method {
    /// Whether a request of this method is told apart by the document it
    /// carries.
    pub open spec fn carries_document(self) -> bool {
        self is Post || self is Put
    }
}

impl Route {
    /// Whether the route is for this method and path.
    pub open spec fn serves(&self, method: Method, path: Seq<char>) -> bool {
        self.path@ == path && method_of(self.method@) == Some(method)
    }

    /// Whether the route's body is the same JSON document as `payload`;
    /// nothing where there is no body or one of the two is not JSON.
    pub open spec fn expects(&self, payload: Seq<char>) -> Option<bool> {
        match self.body {
            Some(body) => same_document(body@, payload),
            None => None,
        }
    }
}

/// The route that a request falls to, searching from position `from`: the
/// first that is for the method and path and, where the method carries a
/// document, expects the one that came.
pub open spec fn selection(
    routes: Seq<Route>,
    method: Method,
    path: Seq<char>,
    payload: Seq<char>,
    from: int,
) -> Selection
    decreases routes.len() - from,
{
    if from < 0 || from >= routes.len() {
        Selection::NotFound
    } else if !routes[from].serves(method, path) {
        selection(routes, method, path, payload, from + 1)
    } else if !method.carries_document() {
        Selection::Found(from as usize)
    } else {
        match routes[from].expects(payload) {
            Some(true) => Selection::Found(from as usize),
            Some(false) => selection(routes, method, path, payload, from + 1),
            None => Selection::Unusable(from as usize),
        }
    }
}

/// The answer for a request that fell to `route`, if to any.
///
/// A `DELETE` forgets the path and answers with the route's status and
/// result. The other methods answer only where the route has a result, which
/// is then remembered under the path. Everything else is not found.
pub open spec fn reply_for(route: Option<Route>, method: Method) -> Reply {
    match route {
        Some(route) => if method is Delete {
            Reply { status: route.status, body: route.result, store: StoreChange::Remove }
        } else if route.result is Some {
            Reply { status: route.status, body: route.result, store: StoreChange::Insert }
        } else {
            Reply { status: NOT_FOUND, body: None, store: StoreChange::Keep }
        },
        None => Reply { status: NOT_FOUND, body: None, store: StoreChange::Keep },
    }
}

impl HttpServer {
    /// Accepts any parameters.
    pub fn validate_params(&self) -> (checked: Result<(), ParamError>)
        ensures
            checked is Ok,
    {
        Ok(())
    }

    /// The method of each route, in order, as the router needs them.
    /// Refused at the first route whose method is not served.
    pub fn route_methods(&self) -> (methods: Result<Vec<Method>, ServerError>)
        ensures
            match methods {
                Ok(listed) => {
                    &&& listed@.len() == self.routes@.len()
                    &&& forall|i: int|
                        0 <= i < listed@.len() ==> method_of(self.routes@[i].method@) == Some(
                            #[trigger] listed@[i],
                        )
                },
                Err(ServerError::MethodNotSupported { route }) => {
                    &&& route < self.routes@.len()
                    &&& method_of(self.routes@[route as int].method@) is None
                    &&& forall|i: int|
                        0 <= i < route ==> method_of(
                            (#[trigger] self.routes@[i]).method@,
                        ) is Some
                },
            },
    {
        let mut listed: Vec<Method> = Vec::new();
        let mut i: usize = 0;
        while i < self.routes.len()
            invariant
                i <= self.routes.len(),
                listed@.len() == i,
                forall|k: int|
                    0 <= k < i ==> method_of(self.routes@[k].method@) == Some(
                        #[trigger] listed@[k],
                    ),
                forall|k: int|
                    0 <= k < i ==> method_of((#[trigger] self.routes@[k]).method@) is Some,
            decreases self.routes.len() - i,
        {
            match parse_method(self.routes[i].method.as_str()) {
                Some(method) => {
                    listed.push(method);
                },
                None => {
                    return Err(ServerError::MethodNotSupported { route: i });
                },
            }
            i = i + 1;
        }
        Ok(listed)
    }

    /// The path of the file to write the store to, if any: an empty path
    /// stands for none.
    pub fn output_path(&self) -> (path: Option<&str>)
        ensures
            match self.output_file {
                Some(file) => if file@.len() == 0 {
                    path is None
                } else {
                    path matches Some(p) && p@ == file@
                },
                None => path is None,
            },
    {
        match &self.output_file {
            Some(file) => if file.as_str().is_empty() {
                None
            } else {
                Some(file.as_str())
            },
            None => None,
        }
    }

    /// Finds the route for a request. `payload` is the JSON text that the
    /// request carries; it is only looked at for `POST` and `PUT`.
    pub fn select(&self, method: Method, path: &str, payload: &str) -> (found: Selection)
        ensures
            found == selection(self.routes@, method, path@, payload@, 0),
    {
        let mut i: usize = 0;
        while i < self.routes.len()
            invariant
                i <= self.routes.len(),
                selection(self.routes@, method, path@, payload@, 0) == selection(
                    self.routes@,
                    method,
                    path@,
                    payload@,
                    i as int,
                ),
            decreases self.routes.len() - i,
        {
            let route = &self.routes[i];
            let serves = str_eq(route.path.as_str(), path) && match parse_method(
                route.method.as_str(),
            ) {
                Some(m) => m == method,
                None => false,
            };
            if serves {
                match method {
                    Method::Post | Method::Put => {
                        let same = match &route.body {
                            Some(body) => compare_documents(body.as_str(), payload),
                            None => None,
                        };
                        match same {
                            Some(true) => {
                                return Selection::Found(i);
                            },
                            Some(false) => {},
                            None => {
                                return Selection::Unusable(i);
                            },
                        }
                    },
                    _ => {
                        return Selection::Found(i);
                    },
                }
            }
            i = i + 1;
        }
        Selection::NotFound
    }

    /// Answers a request: the reply for the route it falls to, or the place
    /// where the search for one had to stop.
    pub fn respond(&self, method: Method, path: &str, payload: &str) -> (answer: Result<
        Reply,
        usize,
    >)
        ensures
            match selection(self.routes@, method, path@, payload@, 0) {
                Selection::Found(i) => answer matches Ok(reply) && reply == reply_for(
                    Some(self.routes@[i as int]),
                    method,
                ),
                Selection::NotFound => answer matches Ok(reply) && reply == reply_for(None, method),
                Selection::Unusable(i) => answer == Err::<Reply, usize>(i),
            },
    {
        match self.select(method, path, payload) {
            Selection::Found(i) => {
                proof {
                    assert(self.routes@.len() == self.routes.len());
                    selection_is_a_route(self.routes@, method, path@, payload@, 0);
                }
                let route = &self.routes[i];
                let reply = match method {
                    Method::Delete => Reply {
                        status: route.status,
                        body: route.result.clone(),
                        store: StoreChange::Remove,
                    },
                    _ => match &route.result {
                        Some(_) => Reply {
                            status: route.status,
                            body: route.result.clone(),
                            store: StoreChange::Insert,
                        },
                        None => Reply { status: NOT_FOUND, body: None, store: StoreChange::Keep },
                    },
                };
                Ok(reply)
            },
            Selection::NotFound => Ok(
                Reply { status: NOT_FOUND, body: None, store: StoreChange::Keep },
            ),
            Selection::Unusable(i) => Err(i),
        }
    }
}

/// A search names only routes that exist, at or after where it started, and
/// that are for the method and path.
pub proof fn selection_is_a_route(
    routes: Seq<Route>,
    method: Method,
    path: Seq<char>,
    payload: Seq<char>,
    from: int,
)
    requires
        0 <= from,
        routes.len() <= usize::MAX,
    ensures
        match selection(routes, method, path, payload, from) {
            Selection::Found(i) => from <= i < routes.len() && routes[i as int].serves(method, path),
            Selection::Unusable(i) => from <= i < routes.len() && routes[i as int].serves(
                method,
                path,
            ),
            Selection::NotFound => true,
        },
    decreases routes.len() - from,
{
    if from < routes.len() {
        selection_is_a_route(routes, method, path, payload, from + 1);
    }
}

} // verus!
