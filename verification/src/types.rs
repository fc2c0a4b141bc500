use vstd::prelude::*;

verus! {

/// Identity of a participating agent, modelled as a plain key value.
pub type AgentPubKey = u64;

/// Identifier of one immutable record, assigned by the immutable store.
pub type ActionHash = usize;

/// Stable handle of an entity: the hash of its creation record.
pub type EntityId = ActionHash;

/// Identifier of a backing network, only carried through.
pub type DnaHash = u64;

/// Spec-level value of an optional free-form string field.
pub open spec fn opt_str_view(o: Option<String>) -> Option<Seq<char>> {
    match o {
        Some(s) => Some(s@),
        None => None,
    }
}

/// Spec-level value of an optionally supplied editor list.
pub open spec fn opt_agents_view(o: Option<Vec<AgentPubKey>>) -> Option<Seq<AgentPubKey>> {
    match o {
        Some(v) => Some(v@),
        None => None,
    }
}

/// Typed edge families of the link graph.
#[derive(Clone, Copy, Debug, PartialEq, Eq, Structural, Hash)]
pub enum LinkTypes {
    Agent,
    Publisher,
    App,
    Anchor,
}

/// Configuration of a hosted web application bundle.
#[derive(Debug, PartialEq, Eq)]
pub struct WebHappConfig {
    pub dna: DnaHash,
    pub happ: ActionHash,
    pub gui: Option<ActionHash>,
}

/// Soft "retired" marker carried on a revision and filtered at query time.
#[derive(Debug, PartialEq, Eq)]
pub struct DeprecationNotice {
    pub message: String,
    pub recommended_alternatives: Option<Vec<ActionHash>>,
}

#[verifier::ext_equal]
pub struct DeprecationNoticeView {
    pub message: Seq<char>,
    pub recommended_alternatives: Option<Seq<ActionHash>>,
}

impl View for DeprecationNotice {
    type V = DeprecationNoticeView;

    open spec fn view(&self) -> DeprecationNoticeView {
        DeprecationNoticeView {
            message: self.message@,
            recommended_alternatives: match self.recommended_alternatives {
                Some(v) => Some(v@),
                None => None,
            },
        }
    }
}

impl Clone for DeprecationNotice {
    fn clone(&self) -> (r: Self)
        ensures
            r@ == self@,
    {
        let alternatives: Option<Vec<ActionHash>> = match &self.recommended_alternatives {
            Some(v) => Some(v.clone()),
            None => None,
        };
        let r = DeprecationNotice {
            message: self.message.clone(),
            recommended_alternatives: alternatives,
        };
        proof {
            assert(r@ =~= self@);
        }
        r
    }
}

/// Coarse physical location of a publisher.
#[derive(Debug, PartialEq, Eq)]
pub struct LocationTriplet {
    pub country: String,
    pub region: String,
    pub city: String,
}

#[verifier::ext_equal]
pub struct LocationTripletView {
    pub country: Seq<char>,
    pub region: Seq<char>,
    pub city: Seq<char>,
}

impl View for LocationTriplet {
    type V = LocationTripletView;

    open spec fn view(&self) -> LocationTripletView {
        LocationTripletView { country: self.country@, region: self.region@, city: self.city@ }
    }
}

impl Clone for LocationTriplet {
    fn clone(&self) -> (r: Self)
        ensures
            r@ == self@,
    {
        let r = LocationTriplet {
            country: self.country.clone(),
            region: self.region.clone(),
            city: self.city.clone(),
        };
        proof {
            assert(r@ =~= self@);
        }
        r
    }
}

/// A web address with an optional context label.
#[derive(Debug, PartialEq, Eq)]
pub struct WebAddress {
    pub url: String,
    pub context: Option<String>,
}

#[verifier::ext_equal]
pub struct WebAddressView {
    pub url: Seq<char>,
    pub context: Option<Seq<char>>,
}

impl View for WebAddress {
    type V = WebAddressView;

    open spec fn view(&self) -> WebAddressView {
        WebAddressView { url: self.url@, context: opt_str_view(self.context) }
    }
}

impl Clone for WebAddress {
    fn clone(&self) -> (r: Self)
        ensures
            r@ == self@,
    {
        let context: Option<String> = match &self.context {
            Some(s) => Some(s.clone()),
            None => None,
        };
        let r = WebAddress { url: self.url.clone(), context };
        proof {
            assert(r@ =~= self@);
        }
        r
    }
}

/// Fields shared by every entity kind.
pub trait CommonFields {
    spec fn spec_author(&self) -> AgentPubKey;

    spec fn spec_published_at(&self) -> u64;

    spec fn spec_last_updated(&self) -> u64;

    spec fn spec_metadata(&self) -> Option<Seq<char>>;

    fn author(&self) -> (r: AgentPubKey)
        ensures
            r == self.spec_author(),
    ;

    fn published_at(&self) -> (r: u64)
        ensures
            r == self.spec_published_at(),
    ;

    fn last_updated(&self) -> (r: u64)
        ensures
            r == self.spec_last_updated(),
    ;

    fn metadata(&self) -> (r: &Option<String>)
        ensures
            opt_str_view(*r) == self.spec_metadata(),
    ;
}

/// Domain payload of a publisher entity.
#[derive(Debug, PartialEq, Eq)]
pub struct PublisherEntry {
    pub name: String,
    pub location: LocationTriplet,
    pub website: WebAddress,
    pub icon_src: String,
    pub editors: Vec<AgentPubKey>,
    pub author: AgentPubKey,
    pub published_at: u64,
    pub last_updated: u64,
    pub metadata: Option<String>,
    pub description: Option<String>,
    pub email: Option<String>,
    pub deprecation: Option<DeprecationNotice>,
}

#[verifier::ext_equal]
pub struct PublisherEntryView {
    pub name: Seq<char>,
    pub location: LocationTripletView,
    pub website: WebAddressView,
    pub icon_src: Seq<char>,
    pub editors: Seq<AgentPubKey>,
    pub author: AgentPubKey,
    pub published_at: u64,
    pub last_updated: u64,
    pub metadata: Option<Seq<char>>,
    pub description: Option<Seq<char>>,
    pub email: Option<Seq<char>>,
    pub deprecation: Option<DeprecationNoticeView>,
}

impl View for PublisherEntry {
    type V = PublisherEntryView;

    open spec fn view(&self) -> PublisherEntryView {
        PublisherEntryView {
            name: self.name@,
            location: self.location@,
            website: self.website@,
            icon_src: self.icon_src@,
            editors: self.editors@,
            author: self.author,
            published_at: self.published_at,
            last_updated: self.last_updated,
            metadata: opt_str_view(self.metadata),
            description: opt_str_view(self.description),
            email: opt_str_view(self.email),
            deprecation: match self.deprecation {
                Some(d) => Some(d@),
                None => None,
            },
        }
    }
}

impl Clone for PublisherEntry {
    fn clone(&self) -> (r: Self)
        ensures
            r@ == self@,
    {
        let metadata: Option<String> = match &self.metadata {
            Some(s) => Some(s.clone()),
            None => None,
        };
        let description: Option<String> = match &self.description {
            Some(s) => Some(s.clone()),
            None => None,
        };
        let email: Option<String> = match &self.email {
            Some(s) => Some(s.clone()),
            None => None,
        };
        let deprecation: Option<DeprecationNotice> = match &self.deprecation {
            Some(d) => Some(d.clone()),
            None => None,
        };
        let r = PublisherEntry {
            name: self.name.clone(),
            location: self.location.clone(),
            website: self.website.clone(),
            icon_src: self.icon_src.clone(),
            editors: self.editors.clone(),
            author: self.author,
            published_at: self.published_at,
            last_updated: self.last_updated,
            metadata,
            description,
            email,
            deprecation,
        };
        proof {
            assert(r@ =~= self@);
        }
        r
    }
}

impl CommonFields for PublisherEntry {
    open spec fn spec_author(&self) -> AgentPubKey {
        self.author
    }

    open spec fn spec_published_at(&self) -> u64 {
        self.published_at
    }

    open spec fn spec_last_updated(&self) -> u64 {
        self.last_updated
    }

    open spec fn spec_metadata(&self) -> Option<Seq<char>> {
        opt_str_view(self.metadata)
    }

    fn author(&self) -> AgentPubKey {
        self.author
    }

    fn published_at(&self) -> u64 {
        self.published_at
    }

    fn last_updated(&self) -> u64 {
        self.last_updated
    }

    fn metadata(&self) -> &Option<String> {
        &self.metadata
    }
}

/// Domain payload of an application entity.
#[derive(Debug, PartialEq, Eq)]
pub struct AppEntry {
    pub title: String,
    pub subtitle: String,
    pub description: String,
    pub icon_src: String,
    pub publisher: EntityId,
    pub source: String,
    pub hashes: String,
    pub changelog: Option<String>,
    pub metadata: Option<String>,
    pub editors: Vec<AgentPubKey>,
    pub author: AgentPubKey,
    pub published_at: u64,
    pub last_updated: u64,
    pub deprecation: Option<DeprecationNotice>,
}

#[verifier::ext_equal]
pub struct AppEntryView {
    pub title: Seq<char>,
    pub subtitle: Seq<char>,
    pub description: Seq<char>,
    pub icon_src: Seq<char>,
    pub publisher: EntityId,
    pub source: Seq<char>,
    pub hashes: Seq<char>,
    pub changelog: Option<Seq<char>>,
    pub metadata: Option<Seq<char>>,
    pub editors: Seq<AgentPubKey>,
    pub author: AgentPubKey,
    pub published_at: u64,
    pub last_updated: u64,
    pub deprecation: Option<DeprecationNoticeView>,
}

impl View for AppEntry {
    type V = AppEntryView;

    open spec fn view(&self) -> AppEntryView {
        AppEntryView {
            title: self.title@,
            subtitle: self.subtitle@,
            description: self.description@,
            icon_src: self.icon_src@,
            publisher: self.publisher,
            source: self.source@,
            hashes: self.hashes@,
            changelog: opt_str_view(self.changelog),
            metadata: opt_str_view(self.metadata),
            editors: self.editors@,
            author: self.author,
            published_at: self.published_at,
            last_updated: self.last_updated,
            deprecation: match self.deprecation {
                Some(d) => Some(d@),
                None => None,
            },
        }
    }
}

impl Clone for AppEntry {
    fn clone(&self) -> (r: Self)
        ensures
            r@ == self@,
    {
        let changelog: Option<String> = match &self.changelog {
            Some(s) => Some(s.clone()),
            None => None,
        };
        let metadata: Option<String> = match &self.metadata {
            Some(s) => Some(s.clone()),
            None => None,
        };
        let deprecation: Option<DeprecationNotice> = match &self.deprecation {
            Some(d) => Some(d.clone()),
            None => None,
        };
        let r = AppEntry {
            title: self.title.clone(),
            subtitle: self.subtitle.clone(),
            description: self.description.clone(),
            icon_src: self.icon_src.clone(),
            publisher: self.publisher,
            source: self.source.clone(),
            hashes: self.hashes.clone(),
            changelog,
            metadata,
            editors: self.editors.clone(),
            author: self.author,
            published_at: self.published_at,
            last_updated: self.last_updated,
            deprecation,
        };
        proof {
            assert(r@ =~= self@);
        }
        r
    }
}

impl CommonFields for AppEntry {
    open spec fn spec_author(&self) -> AgentPubKey {
        self.author
    }

    open spec fn spec_published_at(&self) -> u64 {
        self.published_at
    }

    open spec fn spec_last_updated(&self) -> u64 {
        self.last_updated
    }

    open spec fn spec_metadata(&self) -> Option<Seq<char>> {
        opt_str_view(self.metadata)
    }

    fn author(&self) -> AgentPubKey {
        self.author
    }

    fn published_at(&self) -> u64 {
        self.published_at
    }

    fn last_updated(&self) -> u64 {
        self.last_updated
    }

    fn metadata(&self) -> &Option<String> {
        &self.metadata
    }
}

/// The domain payload of one revision, over all entity kinds.
#[derive(Debug, PartialEq, Eq)]
pub enum EntryTypes {
    Publisher(PublisherEntry),
    App(AppEntry),
}

#[verifier::ext_equal]
pub enum EntryTypesView {
    Publisher(PublisherEntryView),
    App(AppEntryView),
}

impl View for EntryTypes {
    type V = EntryTypesView;

    open spec fn view(&self) -> EntryTypesView {
        match self {
            EntryTypes::Publisher(p) => EntryTypesView::Publisher(p@),
            EntryTypes::App(a) => EntryTypesView::App(a@),
        }
    }
}

impl Clone for EntryTypes {
    fn clone(&self) -> (r: Self)
        ensures
            r@ == self@,
    {
        match self {
            EntryTypes::Publisher(p) => EntryTypes::Publisher(p.clone()),
            EntryTypes::App(a) => EntryTypes::App(a.clone()),
        }
    }
}

impl EntryTypesView {
    /// Which link-graph kind a payload of this shape belongs to.
    pub open spec fn kind(self) -> LinkTypes {
        match self {
            EntryTypesView::Publisher(_) => LinkTypes::Publisher,
            EntryTypesView::App(_) => LinkTypes::App,
        }
    }

    pub open spec fn last_updated(self) -> u64 {
        match self {
            EntryTypesView::Publisher(p) => p.last_updated,
            EntryTypesView::App(a) => a.last_updated,
        }
    }

    pub open spec fn editors(self) -> Seq<AgentPubKey> {
        match self {
            EntryTypesView::Publisher(p) => p.editors,
            EntryTypesView::App(a) => a.editors,
        }
    }

    pub open spec fn deprecation(self) -> Option<DeprecationNoticeView> {
        match self {
            EntryTypesView::Publisher(p) => p.deprecation,
            EntryTypesView::App(a) => a.deprecation,
        }
    }
}

impl EntryTypes {
    pub fn kind(&self) -> (r: LinkTypes)
        ensures
            r == self@.kind(),
    {
        match self {
            EntryTypes::Publisher(_) => LinkTypes::Publisher,
            EntryTypes::App(_) => LinkTypes::App,
        }
    }

    pub fn last_updated(&self) -> (r: u64)
        ensures
            r == self@.last_updated(),
    {
        match self {
            EntryTypes::Publisher(p) => p.last_updated,
            EntryTypes::App(a) => a.last_updated,
        }
    }

    pub fn editors(&self) -> (r: &Vec<AgentPubKey>)
        ensures
            r@ == self@.editors(),
    {
        match self {
            EntryTypes::Publisher(p) => &p.editors,
            EntryTypes::App(a) => &a.editors,
        }
    }

    pub fn is_deprecated(&self) -> (r: bool)
        ensures
            r == (self@.deprecation() is Some),
    {
        match self {
            EntryTypes::Publisher(p) => p.deprecation.is_some(),
            EntryTypes::App(a) => a.deprecation.is_some(),
        }
    }
}

} // verus!
