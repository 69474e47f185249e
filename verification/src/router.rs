//! The route table: which handler answers which method and path.
//!
//! Routes are tried in the order in which they were registered, and the
//! first one whose method and pattern both match decides.

use crate::http::Method;
use crate::pattern::{
    lemma_match_word, lemma_match_word_and_name, lemma_match_word_and_name_long,
    lemma_match_word_short, lemma_parse_of_text, match_segments, parse_pattern, pattern_text,
    slash_free, well_formed, Captures, Params, Pattern, PatternError, SegmentView,
};
use crate::text::chars_of;
use vstd::prelude::*;

verus! {

/// The handlers that the route table knows.
#[derive(Clone, Copy, Debug, PartialEq, Eq, Structural)]
pub enum Handler {
    /// The static greeting.
    Root,
    /// The fixed find query against the document database.
    Mongo,
    /// The insertion of the inbound JSON body into the document database.
    MongoPost,
    /// The write of the inbound JSON body to the key-value store.
    CreateUser,
    /// The read of a record from the key-value store.
    User,
    /// The echo of one form field.
    Form,
    /// The configured version string.
    WorkerVersion,
}

/// One line of the route table.
#[derive(Clone, Debug, PartialEq, Eq)]
pub struct Route {
    pub method: Method,
    pub pattern: Pattern,
    pub handler: Handler,
}

/// The mathematical value of a [`Route`].
pub struct RouteView {
    pub method: Method,
    pub pattern: Seq<SegmentView>,
    pub handler: Handler,
}

impl View for Route {
    type V = RouteView;

    open spec fn view(&self) -> RouteView {
        RouteView { method: self.method, pattern: self.pattern@, handler: self.handler }
    }
}

/// The route that was chosen for a request, with what its pattern captured.
#[derive(Clone, Debug, PartialEq, Eq)]
pub struct RouteMatch {
    pub handler: Handler,
    pub params: Params,
}

/// The mathematical value of a [`RouteMatch`].
pub struct RouteMatchView {
    pub handler: Handler,
    pub params: Captures,
}

impl View for RouteMatch {
    type V = RouteMatchView;

    open spec fn view(&self) -> RouteMatchView {
        RouteMatchView { handler: self.handler, params: self.params@ }
    }
}

/// Whether `route` answers `method` and `path`.
pub open spec fn route_hit(route: RouteView, method: Method, path: Seq<char>) -> bool {
    route.method == method && match_segments(route.pattern, path) is Some
}

/// The first route of `routes` that answers `method` and `path`, with its
/// captures; `None` where no route does.
pub open spec fn resolve(routes: Seq<RouteView>, method: Method, path: Seq<char>) -> Option<
    RouteMatchView,
>
    decreases routes.len(),
{
    if routes.len() == 0 {
        None
    } else if route_hit(routes[0], method, path) {
        Some(
            RouteMatchView {
                handler: routes[0].handler,
                params: match_segments(routes[0].pattern, path)->0,
            },
        )
    } else {
        resolve(routes.skip(1), method, path)
    }
}

/// The route registered for `method` under the pattern written as `text`.
pub open spec fn route_of(method: Method, text: Seq<char>, handler: Handler) -> RouteView {
    RouteView { method, pattern: parse_pattern(text)->Ok_0, handler }
}

/// The route table of the handler, in registration order.
pub open spec fn standard_routes() -> Seq<RouteView> {
    seq![
        route_of(Method::Get, "/"@, Handler::Root),
        route_of(Method::Get, "/mongo"@, Handler::Mongo),
        route_of(Method::Post, "/mongo_post"@, Handler::MongoPost),
        route_of(Method::Post, "/create_user/:name"@, Handler::CreateUser),
        route_of(Method::Get, "/user/:name"@, Handler::User),
        route_of(Method::Post, "/form/:field"@, Handler::Form),
        route_of(Method::Get, "/worker-version"@, Handler::WorkerVersion),
    ]
}

/// An ordered route table.
#[derive(Clone, Debug, PartialEq, Eq)]
pub struct Router {
    pub routes: Vec<Route>,
}

impl View for Router {
    type V = Seq<RouteView>;

    open spec fn view(&self) -> Seq<RouteView> {
        Seq::new(self.routes@.len(), |i: int| self.routes@[i]@)
    }
}

impl Router {
    /// A table without routes.
    pub fn new() -> (router: Router)
        ensures
            router@ == Seq::<RouteView>::empty(),
    {
        let router = Router { routes: Vec::new() };
        assert(router@ =~= Seq::<RouteView>::empty());
        router
    }

    /// Registers a route behind those that are there.
    pub fn on(self, method: Method, pattern: Pattern, handler: Handler) -> (router: Router)
        ensures
            router@ == self@.push(RouteView { method, pattern: pattern@, handler }),
    {
        let mut routes = self.routes;
        routes.push(Route { method, pattern, handler });
        let router = Router { routes };
        assert(router@ =~= self@.push(RouteView { method, pattern: pattern@, handler }));
        router
    }

    /// Registers a route for the pattern written as `text`, behind those
    /// that are there. A text that is no pattern registers nothing.
    pub fn route(self, method: Method, text: &str, handler: Handler) -> (registered: Result<
        Router,
        PatternError,
    >)
        ensures
            match registered {
                Ok(router) => parse_pattern(text@) is Ok && router@ == self@.push(
                    route_of(method, text@, handler),
                ),
                Err(e) => parse_pattern(text@) == Err::<Seq<SegmentView>, PatternError>(e),
            },
    {
        match Pattern::parse(text) {
            Ok(pattern) => Ok(self.on(method, pattern, handler)),
            Err(e) => Err(e),
        }
    }

    /// Registers a `GET` route for the pattern written as `text`.
    pub fn get(self, text: &str, handler: Handler) -> (router: Router)
        requires
            parse_pattern(text@) is Ok,
        ensures
            router@ == self@.push(route_of(Method::Get, text@, handler)),
    {
        match Pattern::parse(text) {
            Ok(pattern) => self.on(Method::Get, pattern, handler),
            Err(_) => self,
        }
    }

    /// Registers a `POST` route for the pattern written as `text`.
    pub fn post(self, text: &str, handler: Handler) -> (router: Router)
        requires
            parse_pattern(text@) is Ok,
        ensures
            router@ == self@.push(route_of(Method::Post, text@, handler)),
    {
        match Pattern::parse(text) {
            Ok(pattern) => self.on(Method::Post, pattern, handler),
            Err(_) => self,
        }
    }

    /// The route table of the handler.
    pub fn standard() -> (router: Router)
        ensures
            router@ == standard_routes(),
    {
        proof {
            lemma_standard_patterns();
        }
        let router = Router::new()
            .get("/", Handler::Root)
            .get("/mongo", Handler::Mongo)
            .post("/mongo_post", Handler::MongoPost)
            .post("/create_user/:name", Handler::CreateUser)
            .get("/user/:name", Handler::User)
            .post("/form/:field", Handler::Form)
            .get("/worker-version", Handler::WorkerVersion);
        assert(router@ =~= standard_routes());
        router
    }

    /// Chooses the route for a request: the first registered route whose
    /// method is `method` and whose pattern matches `path`.
    pub fn resolve(&self, method: Method, path: &str) -> (found: Option<RouteMatch>)
        ensures
            match found {
                Some(m) => resolve(self@, method, path@) == Some(m@),
                None => resolve(self@, method, path@) is None,
            },
    {
        let chars = chars_of(path);
        let mut i: usize = 0;
        assert(self@.skip(0) =~= self@);
        while i < self.routes.len()
            invariant
                i <= self.routes.len(),
                chars@ == path@,
                resolve(self@, method, path@) == resolve(self@.skip(i as int), method, path@),
            decreases self.routes.len() - i,
        {
            let route = &self.routes[i];
            assert(self@.skip(i as int)[0] == route@);
            assert(self@.skip(i as int).skip(1) =~= self@.skip(i as int + 1));
            if route.method == method {
                if let Some(params) = route.pattern.captures_in(path, &chars) {
                    return Some(RouteMatch { handler: route.handler, params });
                }
            }
            i += 1;
        }
        None
    }
}

/// The segments of the seven standard patterns.
pub proof fn lemma_standard_patterns()
    ensures
        parse_pattern("/"@) == Ok::<Seq<SegmentView>, PatternError>(
            seq![SegmentView::Literal(Seq::empty())],
        ),
        parse_pattern("/mongo"@) == Ok::<Seq<SegmentView>, PatternError>(
            seq![SegmentView::Literal("mongo"@)],
        ),
        parse_pattern("/mongo_post"@) == Ok::<Seq<SegmentView>, PatternError>(
            seq![SegmentView::Literal("mongo_post"@)],
        ),
        parse_pattern("/create_user/:name"@) == Ok::<Seq<SegmentView>, PatternError>(
            seq![SegmentView::Literal("create_user"@), SegmentView::Param("name"@)],
        ),
        parse_pattern("/user/:name"@) == Ok::<Seq<SegmentView>, PatternError>(
            seq![SegmentView::Literal("user"@), SegmentView::Param("name"@)],
        ),
        parse_pattern("/form/:field"@) == Ok::<Seq<SegmentView>, PatternError>(
            seq![SegmentView::Literal("form"@), SegmentView::Param("field"@)],
        ),
        parse_pattern("/worker-version"@) == Ok::<Seq<SegmentView>, PatternError>(
            seq![SegmentView::Literal("worker-version"@)],
        ),
{
    reveal_strlit("/");
    reveal_strlit("/mongo");
    reveal_strlit("mongo");
    reveal_strlit("/mongo_post");
    reveal_strlit("mongo_post");
    reveal_strlit("/create_user/:name");
    reveal_strlit("create_user");
    reveal_strlit("name");
    reveal_strlit("/user/:name");
    reveal_strlit("user");
    reveal_strlit("/form/:field");
    reveal_strlit("form");
    reveal_strlit("field");
    reveal_strlit("/worker-version");
    reveal_strlit("worker-version");
    lemma_one_word(Seq::empty(), "/"@);
    lemma_one_word("mongo"@, "/mongo"@);
    lemma_one_word("mongo_post"@, "/mongo_post"@);
    lemma_one_word("worker-version"@, "/worker-version"@);
    lemma_word_and_name("create_user"@, "name"@, "/create_user/:name"@);
    lemma_word_and_name("user"@, "name"@, "/user/:name"@);
    lemma_word_and_name("form"@, "field"@, "/form/:field"@);
}

/// A text of one literal word reads as that word.
pub proof fn lemma_one_word(word: Seq<char>, text: Seq<char>)
    requires
        well_formed(seq![SegmentView::Literal(word)]),
        text =~= seq!['/'] + word,
    ensures
        parse_pattern(text) == Ok::<Seq<SegmentView>, PatternError>(
            seq![SegmentView::Literal(word)],
        ),
{
    let segments = seq![SegmentView::Literal(word)];
    assert(segments.skip(1) =~= Seq::empty());
    assert(pattern_text(segments.skip(1)) =~= Seq::empty());
    assert(pattern_text(segments) =~= text);
    lemma_parse_of_text(segments);
}

/// A text of a literal word and a named capture reads as these two.
pub proof fn lemma_word_and_name(word: Seq<char>, name: Seq<char>, text: Seq<char>)
    requires
        well_formed(seq![SegmentView::Literal(word), SegmentView::Param(name)]),
        text =~= seq!['/'] + word + seq!['/', ':'] + name,
    ensures
        parse_pattern(text) == Ok::<Seq<SegmentView>, PatternError>(
            seq![SegmentView::Literal(word), SegmentView::Param(name)],
        ),
{
    let segments = seq![SegmentView::Literal(word), SegmentView::Param(name)];
    let tail = segments.skip(1);
    assert(tail =~= seq![SegmentView::Param(name)]);
    assert(tail.skip(1) =~= Seq::empty());
    assert(pattern_text(tail.skip(1)) =~= Seq::empty());
    assert(pattern_text(tail) =~= seq!['/', ':'] + name);
    assert(pattern_text(segments) =~= text);
    lemma_parse_of_text(segments);
}

/// No route is chosen exactly where no registered route answers the
/// method and the path.
pub proof fn lemma_resolve_none(routes: Seq<RouteView>, method: Method, path: Seq<char>)
    ensures
        resolve(routes, method, path) is None <==> forall|i: int|
            0 <= i < routes.len() ==> !route_hit(#[trigger] routes[i], method, path),
    decreases routes.len(),
{
    if routes.len() > 0 {
        let tail = routes.skip(1);
        lemma_resolve_none(tail, method, path);
        if !route_hit(routes[0], method, path) {
            if resolve(tail, method, path) is None {
                assert forall|i: int| 0 <= i < routes.len() implies !route_hit(
                    #[trigger] routes[i],
                    method,
                    path,
                ) by {
                    if i > 0 {
                        assert(routes[i] == tail[i - 1]);
                    }
                }
            } else {
                let j = choose|j: int| 0 <= j < tail.len() && route_hit(tail[j], method, path);
                assert(routes[j + 1] == tail[j]);
            }
        }
    }
}

/// Registration order decides: the first registered route that answers the
/// method and the path is chosen, with what its pattern captures.
pub proof fn lemma_first_hit_wins(routes: Seq<RouteView>, i: int, method: Method, path: Seq<char>)
    requires
        0 <= i < routes.len(),
        route_hit(routes[i], method, path),
        forall|j: int| 0 <= j < i ==> !route_hit(#[trigger] routes[j], method, path),
    ensures
        resolve(routes, method, path) == Some(
            RouteMatchView {
                handler: routes[i].handler,
                params: match_segments(routes[i].pattern, path)->0,
            },
        ),
    decreases i,
{
    if i > 0 {
        let tail = routes.skip(1);
        assert(!route_hit(routes[0], method, path));
        assert(tail[i - 1] == routes[i]);
        assert forall|j: int| 0 <= j < i - 1 implies !route_hit(
            #[trigger] tail[j],
            method,
            path,
        ) by {
            assert(tail[j] == routes[j + 1]);
        }
        lemma_first_hit_wins(tail, i - 1, method, path);
    }
}

/// The handler that the standard table has for a path of one word.
pub open spec fn one_word_handler(method: Method, word: Seq<char>) -> Option<Handler> {
    if method == Method::Get && word.len() == 0 {
        Some(Handler::Root)
    } else if method == Method::Get && word == "mongo"@ {
        Some(Handler::Mongo)
    } else if method == Method::Post && word == "mongo_post"@ {
        Some(Handler::MongoPost)
    } else if method == Method::Get && word == "worker-version"@ {
        Some(Handler::WorkerVersion)
    } else {
        None
    }
}

/// The handler that the standard table has for a path of two words, and
/// the name under which it captures the second word.
pub open spec fn two_word_handler(method: Method, first: Seq<char>, second: Seq<char>) -> Option<
    (Handler, Seq<char>),
> {
    if second.len() == 0 {
        None
    } else if method == Method::Post && first == "create_user"@ {
        Some((Handler::CreateUser, "name"@))
    } else if method == Method::Get && first == "user"@ {
        Some((Handler::User, "name"@))
    } else if method == Method::Post && first == "form"@ {
        Some((Handler::Form, "field"@))
    } else {
        None
    }
}

/// The standard table on the paths of one word: `/`, `/mongo` and
/// `/worker-version` under `GET`, `/mongo_post` under `POST`, and no route
/// for any other word or method.
pub proof fn lemma_standard_one_word(method: Method, word: Seq<char>)
    requires
        slash_free(word),
    ensures
        resolve(standard_routes(), method, seq!['/'] + word) == match one_word_handler(
            method,
            word,
        ) {
            Some(handler) => Some(RouteMatchView { handler, params: Captures::empty() }),
            None => None,
        },
{
    let routes = standard_routes();
    let path = seq!['/'] + word;
    lemma_standard_patterns();
    reveal_strlit("mongo");
    reveal_strlit("mongo_post");
    reveal_strlit("worker-version");
    lemma_match_word(Seq::empty(), word);
    lemma_match_word("mongo"@, word);
    lemma_match_word("mongo_post"@, word);
    lemma_match_word("worker-version"@, word);
    lemma_match_word_and_name_long("create_user"@, "name"@, word);
    lemma_match_word_and_name_long("user"@, "name"@, word);
    lemma_match_word_and_name_long("form"@, "field"@, word);
    assert(word.len() == 0 <==> word == Seq::<char>::empty()) by {
        if word.len() == 0 {
            assert(word =~= Seq::<char>::empty());
        }
    }
    match one_word_handler(method, word) {
        Some(handler) => {
            let i: int = if handler == Handler::Root {
                0
            } else if handler == Handler::Mongo {
                1
            } else if handler == Handler::MongoPost {
                2
            } else {
                6
            };
            lemma_first_hit_wins(routes, i, method, path);
        },
        None => {
            lemma_resolve_none(routes, method, path);
        },
    }
}

/// The standard table on the paths of two words: `/create_user/:name` and
/// `/form/:field` under `POST`, `/user/:name` under `GET`, each capturing a
/// second word that is not empty, and no route for any other path or method.
pub proof fn lemma_standard_two_words(method: Method, first: Seq<char>, second: Seq<char>)
    requires
        slash_free(first),
        slash_free(second),
    ensures
        resolve(standard_routes(), method, seq!['/'] + first + seq!['/'] + second)
            == match two_word_handler(method, first, second) {
            Some((handler, name)) => Some(
                RouteMatchView { handler, params: seq![(name, second)] },
            ),
            None => None,
        },
{
    let routes = standard_routes();
    let path = seq!['/'] + first + seq!['/'] + second;
    lemma_standard_patterns();
    reveal_strlit("create_user");
    reveal_strlit("user");
    reveal_strlit("form");
    lemma_match_word_short(Seq::empty(), first, second);
    lemma_match_word_short("mongo"@, first, second);
    lemma_match_word_short("mongo_post"@, first, second);
    lemma_match_word_short("worker-version"@, first, second);
    lemma_match_word_and_name("create_user"@, "name"@, first, second);
    lemma_match_word_and_name("user"@, "name"@, first, second);
    lemma_match_word_and_name("form"@, "field"@, first, second);
    match two_word_handler(method, first, second) {
        Some((handler, name)) => {
            let i: int = if handler == Handler::CreateUser {
                3
            } else if handler == Handler::User {
                4
            } else {
                5
            };
            lemma_first_hit_wins(routes, i, method, path);
        },
        None => {
            lemma_resolve_none(routes, method, path);
        },
    }
}

} // verus!
