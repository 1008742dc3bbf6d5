//! The route model and the hash router: which location a path names, and
//! how the one mounted router follows the hash of the address.

use crate::text::{str_chars, str_eq};
use vstd::prelude::*;
use vstd::std_specs::cmp::PartialEqSpecImpl;

verus! {

/// What every path of a detail page begins with.
pub const DETAILS_PREFIX: &'static str = "/spirits/";

/// The path of the navigation view.
pub const HOME_PATH: &'static str = "/";

/// A location of the application.
#[derive(Debug, Clone, Eq)]
pub enum Route {
    /// The navigation view; also where every unknown path leads.
    Home,
    /// The detail page of the character called `name` in the form whose
    /// address form is `form`.
    SpiritDetails { name: String, form: String },
}

/// A location, with its texts as sequences of characters.
pub enum RouteView {
    Home,
    SpiritDetails { name: Seq<char>, form: Seq<char> },
}

impl View for Route {
    type V = RouteView;

    open spec fn view(&self) -> RouteView {
        match self {
            Route::Home => RouteView::Home,
            Route::SpiritDetails { name, form } => RouteView::SpiritDetails {
                name: name@,
                form: form@,
            },
        }
    }
}

impl Default for Route {
    fn default() -> (r: Self)
        ensures
            r@ == RouteView::Home,
    {
        Route::Home
    }
}

impl PartialEq for Route {
    fn eq(&self, other: &Self) -> (r: bool) {
        match (self, other) {
            (Route::Home, Route::Home) => true,
            (
                Route::SpiritDetails { name, form },
                Route::SpiritDetails { name: other_name, form: other_form },
            ) => str_eq(name.as_str(), other_name.as_str()) && str_eq(
                form.as_str(),
                other_form.as_str(),
            ),
            _ => false,
        }
    }
}

impl PartialEqSpecImpl for Route {
    open spec fn obeys_eq_spec() -> bool {
        true
    }

    open spec fn eq_spec(&self, other: &Route) -> bool {
        self@ == other@
    }
}

/// Whether `s` can stand as one segment of a path: it is not empty and
/// holds neither a slash nor a question mark.
pub open spec fn is_segment(s: Seq<char>) -> bool {
    &&& s.len() > 0
    &&& forall|i: int| 0 <= i < s.len() ==> #[trigger] s[i] != '/' && s[i] != '?'
}

/// The path of the detail page of `name` in the form `form`.
pub open spec fn details_path(name: Seq<char>, form: Seq<char>) -> Seq<char> {
    DETAILS_PREFIX@ + name + "/"@ + form
}

/// The place of the first slash of `s` at or after `from`; the length of
/// `s` where there is none.
pub open spec fn next_slash(s: Seq<char>, from: int) -> int
    decreases s.len() - from,
{
    if from >= s.len() {
        s.len() as int
    } else if s[from] == '/' {
        from
    } else {
        next_slash(s, from + 1)
    }
}

/// The location that `path` names. A path made of the prefix of detail
/// pages and two segments with one slash between them names a detail page;
/// every other path names the navigation view.
pub open spec fn match_route(path: Seq<char>) -> RouteView {
    let start = DETAILS_PREFIX@.len() as int;
    if DETAILS_PREFIX@.is_prefix_of(path) {
        let slash = next_slash(path, start);
        if slash < path.len() {
            let name = path.subrange(start, slash);
            let form = path.subrange(slash + 1, path.len() as int);
            if is_segment(name) && is_segment(form) {
                RouteView::SpiritDetails { name, form }
            } else {
                RouteView::Home
            }
        } else {
            RouteView::Home
        }
    } else {
        RouteView::Home
    }
}

proof fn lemma_next_slash(s: Seq<char>, from: int)
    requires
        0 <= from <= s.len(),
    ensures
        from <= next_slash(s, from) <= s.len(),
        forall|i: int| from <= i < next_slash(s, from) ==> s[i] != '/',
        next_slash(s, from) < s.len() ==> s[next_slash(s, from)] == '/',
    decreases s.len() - from,
{
    if from < s.len() && s[from] != '/' {
        lemma_next_slash(s, from + 1);
    }
}

proof fn lemma_next_slash_is(s: Seq<char>, from: int, at: int)
    requires
        0 <= from <= at <= s.len(),
        forall|i: int| from <= i < at ==> s[i] != '/',
        at < s.len() ==> s[at] == '/',
    ensures
        next_slash(s, from) == at,
    decreases at - from,
{
    if from < at {
        lemma_next_slash_is(s, from + 1, at);
    }
}

/// A path made of the prefix of detail pages and two segments names the
/// detail page of just these two.
pub proof fn law_details_path_matches(name: Seq<char>, form: Seq<char>)
    requires
        is_segment(name),
        is_segment(form),
    ensures
        match_route(details_path(name, form)) == (RouteView::SpiritDetails { name, form }),
{
    let path = details_path(name, form);
    let start = DETAILS_PREFIX@.len() as int;
    reveal_strlit("/");
    assert(path.subrange(0, start) =~= DETAILS_PREFIX@);
    let slash = start + name.len();
    assert(path[slash] == '/');
    assert forall|i: int| start <= i < slash implies path[i] != '/' by {
        assert(path[i] == name[i - start]);
    }
    lemma_next_slash_is(path, start, slash);
    assert(path.subrange(start, slash) =~= name);
    assert(path.subrange(slash + 1, path.len() as int) =~= form);
}

/// A path names a detail page only where it is made of the prefix of detail
/// pages and the two segments that the route holds.
pub proof fn law_details_route_is_path(path: Seq<char>)
    ensures
        match_route(path) matches RouteView::SpiritDetails { name, form } ==> {
            &&& is_segment(name)
            &&& is_segment(form)
            &&& path == details_path(name, form)
        },
{
    if let RouteView::SpiritDetails { name, form } = match_route(path) {
        let start = DETAILS_PREFIX@.len() as int;
        lemma_next_slash(path, start);
        reveal_strlit("/");
        assert(path =~= details_path(name, form));
    }
}

/// Every path that is not made of the prefix of detail pages, a text that is
/// not empty, a slash and another such text names the navigation view.
pub proof fn law_unmatched_path_is_home(path: Seq<char>)
    requires
        forall|a: Seq<char>, b: Seq<char>|
            a.len() > 0 && b.len() > 0 ==> path != #[trigger] details_path(a, b),
    ensures
        match_route(path) == RouteView::Home,
{
    law_details_route_is_path(path);
}

/// The path that a hash stands for: what follows its leading `#`, and the
/// path of the navigation view where it has none.
pub open spec fn hash_path(hash: Seq<char>) -> Seq<char> {
    if hash.len() > 0 && hash[0] == '#' {
        hash.skip(1)
    } else {
        HOME_PATH@
    }
}

impl Route {
    /// The identifier of the variant.
    pub open spec fn spec_variant_name(view: RouteView) -> Seq<char> {
        match view {
            RouteView::Home => "Home"@,
            RouteView::SpiritDetails { .. } => "SpiritDetails"@,
        }
    }

    /// The identifier of the variant.
    pub fn variant_name(&self) -> (r: &'static str)
        ensures
            r@ == Route::spec_variant_name(self@),
    {
        match self {
            Route::Home => "Home",
            Route::SpiritDetails { .. } => "SpiritDetails",
        }
    }

    /// The location that `path` names.
    #[verifier::loop_isolation(false)]
    pub fn match_path(path: &str) -> (r: Route)
        ensures
            r@ == match_route(path@),
    {
        let chars = str_chars(path);
        let prefix = str_chars(DETAILS_PREFIX);
        let start = prefix.len();
        let len = chars.len();
        if len < start {
            return Route::Home;
        }
        let mut i: usize = 0;
        while i < start
            invariant
                i <= start <= len,
                start == prefix.len(),
                len == chars.len(),
                forall|k: int| 0 <= k < i ==> chars@[k] == prefix@[k],
            decreases start - i,
        {
            if chars[i] != prefix[i] {
                assert(path@.subrange(0, start as int)[i as int] != DETAILS_PREFIX@[i as int]);
                return Route::Home;
            }
            i += 1;
        }
        assert(path@.subrange(0, start as int) =~= DETAILS_PREFIX@);
        let mut slash: usize = start;
        let mut plain: bool = true;
        while slash < len && chars[slash] != '/'
            invariant
                start <= slash <= len,
                len == chars.len(),
                forall|k: int| start <= k < slash ==> chars@[k] != '/',
                plain <==> forall|k: int| start <= k < slash ==> chars@[k] != '?',
            decreases len - slash,
        {
            if chars[slash] == '?' {
                plain = false;
            }
            slash += 1;
        }
        proof {
            lemma_next_slash_is(path@, start as int, slash as int);
        }
        if slash >= len {
            return Route::Home;
        }
        let ghost name = path@.subrange(start as int, slash as int);
        let ghost form = path@.subrange(slash + 1, len as int);
        if slash == start || !plain {
            proof {
                if slash > start {
                    let k = choose|k: int| start <= k < slash && chars@[k] == '?';
                    assert(name[k - start] == '?');
                }
            }
            return Route::Home;
        }
        assert(is_segment(name)) by {
            assert forall|k: int| 0 <= k < name.len() implies #[trigger] name[k] != '/' && name[k]
                != '?' by {
                assert(name[k] == chars@[start + k]);
            }
        }
        if slash + 1 == len {
            return Route::Home;
        }
        let mut j: usize = slash + 1;
        while j < len
            invariant
                slash < j <= len,
                len == chars.len(),
                forall|k: int| slash < k < j ==> chars@[k] != '/' && chars@[k] != '?',
            decreases len - j,
        {
            if chars[j] == '/' || chars[j] == '?' {
                assert(form[j - slash - 1] == chars@[j as int]);
                return Route::Home;
            }
            j += 1;
        }
        assert(is_segment(form)) by {
            assert forall|k: int| 0 <= k < form.len() implies #[trigger] form[k] != '/' && form[k]
                != '?' by {
                assert(form[k] == chars@[slash + 1 + k]);
            }
        }
        Route::SpiritDetails {
            name: String::from_str(path.substring_char(start, slash)),
            form: String::from_str(path.substring_char(slash + 1, len)),
        }
    }
}

/// The path that a hash stands for.
pub fn path_of_hash(hash: &str) -> (r: String)
    ensures
        r@ == hash_path(hash@),
{
    let len = hash.unicode_len();
    if len > 0 && hash.get_char(0) == '#' {
        String::from_str(hash.substring_char(1, len))
    } else {
        String::from_str(HOME_PATH)
    }
}

/// Why the router refuses an operation.
#[derive(Debug, Clone, Copy, PartialEq, Eq, Structural)]
pub enum RouterError {
    /// A router is mounted already, and there can be one only.
    AlreadyMounted,
    /// No router is mounted.
    NotMounted,
}

impl RouterError {
    /// The error in words.
    pub open spec fn spec_message(self) -> Seq<char> {
        match self {
            RouterError::AlreadyMounted => "cannot have more than one HashRouter component"@,
            RouterError::NotMounted => "navigate_replace can only be used with a HashRouter"@,
        }
    }

    /// The error in words.
    pub fn message(&self) -> (r: &'static str)
        ensures
            r@ == self.spec_message(),
    {
        match self {
            RouterError::AlreadyMounted => "cannot have more than one HashRouter component",
            RouterError::NotMounted => "navigate_replace can only be used with a HashRouter",
        }
    }
}

/// What a navigation asks of the surroundings.
#[derive(Debug, Clone, PartialEq, Eq)]
pub struct Navigation {
    /// Whether the router's path changed, so that what follows the route
    /// has to be derived anew.
    pub changed: bool,
    /// What the address is to be replaced by, without a new entry in the
    /// history.
    pub url: String,
}

/// The state of the slot as a plain value: the path of the mounted router,
/// or nothing.
pub type SlotView = Option<Seq<char>>;

/// The slot after a router is mounted on `hash`, and whether that was
/// allowed: it is only where the slot was free.
pub open spec fn spec_mount(slot: SlotView, hash: Seq<char>) -> (SlotView, Result<(), RouterError>) {
    match slot {
        Some(_) => (slot, Err(RouterError::AlreadyMounted)),
        None => (Some(hash_path(hash)), Ok(())),
    }
}

/// The slot after its router is torn down.
pub open spec fn spec_unmount(slot: SlotView) -> SlotView {
    None
}

/// The slot after the address changed to `hash`.
pub open spec fn spec_hash_change(slot: SlotView, hash: Seq<char>) -> SlotView {
    match slot {
        Some(_) => Some(hash_path(hash)),
        None => None,
    }
}

/// The slot after a navigation to `path`.
pub open spec fn spec_navigate(slot: SlotView, path: Seq<char>) -> SlotView {
    match slot {
        Some(_) => Some(path),
        None => None,
    }
}

/// The place of the one hash router: it holds the path of the router that
/// is mounted, and nothing while none is.
#[derive(Debug)]
pub struct HashRouter {
    path: Option<String>,
}

impl View for HashRouter {
    type V = SlotView;

    closed spec fn view(&self) -> SlotView {
        match self.path {
            Some(path) => Some(path@),
            None => None,
        }
    }
}

impl HashRouter {
    /// The route of a slot: the location that the path of its router names.
    pub open spec fn spec_route(slot: SlotView) -> Option<RouteView> {
        match slot {
            Some(path) => Some(match_route(path)),
            None => None,
        }
    }

    /// The free slot.
    pub fn new() -> (r: Self)
        ensures
            r@ is None,
    {
        HashRouter { path: None }
    }

    /// Whether a router is mounted.
    pub fn is_mounted(&self) -> (r: bool)
        ensures
            r == self@ is Some,
    {
        self.path.is_some()
    }

    /// Mounts a router that starts at the path of `hash`. Fails, and
    /// changes nothing, where a router is mounted already.
    pub fn mount(&mut self, hash: &str) -> (r: Result<(), RouterError>)
        ensures
            final(self)@ == spec_mount(old(self)@, hash@).0,
            r == spec_mount(old(self)@, hash@).1,
    {
        if self.path.is_some() {
            return Err(RouterError::AlreadyMounted);
        }
        self.path = Some(path_of_hash(hash));
        Ok(())
    }

    /// Tears the router down and frees the slot.
    pub fn unmount(&mut self)
        ensures
            final(self)@ == spec_unmount(old(self)@),
    {
        self.path = None;
    }

    /// The path of the mounted router.
    pub fn path(&self) -> (r: Option<&str>)
        ensures
            match r {
                Some(path) => self@ == Some(path@),
                None => self@ is None,
            },
    {
        match &self.path {
            Some(path) => Some(path.as_str()),
            None => None,
        }
    }

    /// The current route: the location that the path of the mounted router
    /// names.
    pub fn route(&self) -> (r: Option<Route>)
        ensures
            match r {
                Some(route) => HashRouter::spec_route(self@) == Some(route@),
                None => self@ is None,
            },
    {
        match &self.path {
            Some(path) => Some(Route::match_path(path.as_str())),
            None => None,
        }
    }

    /// Follows a change of the address to `hash`, by history or by hand.
    /// Returns whether the route changed with it.
    pub fn on_hash_change(&mut self, hash: &str) -> (r: bool)
        ensures
            final(self)@ == spec_hash_change(old(self)@, hash@),
            r == (HashRouter::spec_route(final(self)@) != HashRouter::spec_route(old(self)@)),
    {
        match &self.path {
            Some(path) => {
                let before = Route::match_path(path.as_str());
                let next = path_of_hash(hash);
                let after = Route::match_path(next.as_str());
                self.path = Some(next);
                before != after
            },
            None => false,
        }
    }

    /// Navigates to `path` in place of the current location. The router's
    /// path is set only where it differs; the address is to be replaced in
    /// either case. Fails where no router is mounted.
    pub fn navigate_replace(&mut self, path: &str) -> (r: Result<Navigation, RouterError>)
        ensures
            final(self)@ == spec_navigate(old(self)@, path@),
            match old(self)@ {
                Some(before) => {
                    &&& r matches Ok(navigation)
                    &&& navigation.changed == (before != path@)
                    &&& navigation.url@ == "#"@ + path@
                },
                None => r == Err::<Navigation, RouterError>(RouterError::NotMounted),
            },
    {
        let changed = match &self.path {
            Some(current) => !str_eq(path, current.as_str()),
            None => {
                return Err(RouterError::NotMounted);
            },
        };
        if changed {
            self.path = Some(String::from_str(path));
        }
        let mut url = String::from_str("#");
        url.append(path);
        Ok(Navigation { changed, url })
    }
}

/// There is one router at most: while one is mounted a second mount fails,
/// and once it is torn down a mount succeeds again.
pub proof fn law_single_router(slot: SlotView, first: Seq<char>, second: Seq<char>, third: Seq<char>)
    requires
        slot is None,
    ensures
        spec_mount(slot, first).1 is Ok,
        spec_mount(spec_mount(slot, first).0, second).1 == Err::<(), RouterError>(
            RouterError::AlreadyMounted,
        ),
        spec_mount(spec_mount(slot, first).0, second).0 == spec_mount(slot, first).0,
        spec_mount(spec_unmount(spec_mount(slot, first).0), third).1 is Ok,
{
}

/// A navigation to the path that the router is at changes nothing.
pub proof fn law_navigate_in_place(slot: SlotView, path: Seq<char>)
    requires
        slot == Some(path),
    ensures
        spec_navigate(slot, path) == slot,
{
}

} // verus!
