//! The forum handlers' own rules: which remote call a request becomes, and
//! which forums and categories the fields that come back describe.

use vstd::prelude::*;
use vstd::string::StringExecFns;

verus! {

/// The identifier of a forum: a forum proper or a topic set that stands for one.
#[derive(Clone, Debug, PartialEq, Eq)]
pub enum ForumId {
    Fid(String),
    Stid(String),
}

pub enum ForumIdView {
    Fid(Seq<char>),
    Stid(Seq<char>),
}

impl View for ForumId {
    type V = ForumIdView;

    open spec fn view(&self) -> ForumIdView {
        match self {
            ForumId::Fid(id) => ForumIdView::Fid(id@),
            ForumId::Stid(id) => ForumIdView::Stid(id@),
        }
    }
}

/// The identifier of a forum proper.
pub fn make_fid(id: String) -> (r: ForumId)
    ensures
        r == ForumId::Fid(id),
{
    ForumId::Fid(id)
}

/// The identifier of a topic set.
pub fn make_stid(id: String) -> (r: ForumId)
    ensures
        r == ForumId::Stid(id),
{
    ForumId::Stid(id)
}

/// A forum.
#[derive(Clone, Debug, PartialEq, Eq)]
pub struct Forum {
    pub id: Option<ForumId>,
    pub name: String,
    pub info: String,
    pub icon_url: String,
}

pub struct ForumView {
    pub id: Option<ForumIdView>,
    pub name: Seq<char>,
    pub info: Seq<char>,
    pub icon_url: Seq<char>,
}

impl View for Forum {
    type V = ForumView;

    open spec fn view(&self) -> ForumView {
        ForumView {
            id: match self.id {
                Some(id) => Some(id@),
                None => None,
            },
            name: self.name@,
            info: self.info@,
            icon_url: self.icon_url@,
        }
    }
}

/// The text of an optional string.
pub open spec fn text(s: Option<String>) -> Option<Seq<char>> {
    match s {
        Some(s) => Some(s@),
        None => None,
    }
}

/// The fields of a forum as a remote document gives them, each absent or a
/// text.
#[derive(Clone, Debug)]
pub struct ForumFields {
    pub id: Option<String>,
    pub fid: Option<String>,
    pub stid: Option<String>,
    pub name: Option<String>,
    pub info: Option<String>,
}

pub struct ForumFieldsView {
    pub id: Option<Seq<char>>,
    pub fid: Option<Seq<char>>,
    pub stid: Option<Seq<char>>,
    pub name: Option<Seq<char>>,
    pub info: Option<Seq<char>>,
}

impl View for ForumFields {
    type V = ForumFieldsView;

    open spec fn view(&self) -> ForumFieldsView {
        ForumFieldsView {
            id: text(self.id),
            fid: text(self.fid),
            stid: text(self.stid),
            name: text(self.name),
            info: text(self.info),
        }
    }
}

/// The first of two optional texts that is there, or the empty text.
pub open spec fn first_of(a: Option<Seq<char>>, b: Option<Seq<char>>) -> Seq<char> {
    match a {
        Some(a) => a,
        None => match b {
            Some(b) => b,
            None => Seq::empty(),
        },
    }
}

/// The address of a forum's icon: the icons' path, a slash, the forum's `id`
/// or else its `fid`, and the extension.
pub open spec fn icon_url_of(fields: ForumFieldsView, icon_path: Seq<char>) -> Seq<char> {
    icon_path + "/"@ + first_of(fields.id, fields.fid) + ".png"@
}

/// The forum that fields describe. A forum needs a name; its identifier is the
/// topic set where there is one, else the forum proper; its info may be empty.
pub open spec fn forum_of(fields: ForumFieldsView, icon_path: Seq<char>) -> Option<ForumView> {
    match fields.name {
        Some(name) => Some(
            ForumView {
                id: match fields.stid {
                    Some(stid) => Some(ForumIdView::Stid(stid)),
                    None => match fields.fid {
                        Some(fid) => Some(ForumIdView::Fid(fid)),
                        None => None,
                    },
                },
                name,
                info: first_of(fields.info, None),
                icon_url: icon_url_of(fields, icon_path),
            },
        ),
        None => None,
    }
}

/// The view of an optional forum.
pub open spec fn forum_view(forum: Option<Forum>) -> Option<ForumView> {
    match forum {
        Some(forum) => Some(forum@),
        None => None,
    }
}

/// Builds a forum from its fields.
pub fn extract_forum(fields: &ForumFields, icon_path: &str) -> (forum: Option<Forum>)
    ensures
        forum_view(forum) == forum_of(fields@, icon_path@),
{
    let mut icon_url = icon_path.to_owned();
    icon_url.append("/");
    match &fields.id {
        Some(id) => icon_url.append(id.as_str()),
        None => match &fields.fid {
            Some(fid) => icon_url.append(fid.as_str()),
            None => {
                assert(icon_url@ + Seq::<char>::empty() =~= icon_url@);
            },
        },
    }
    icon_url.append(".png");
    let id = match &fields.stid {
        Some(stid) => Some(make_stid(stid.clone())),
        None => match &fields.fid {
            Some(fid) => Some(make_fid(fid.clone())),
            None => None,
        },
    };
    let name = match &fields.name {
        Some(name) => name.clone(),
        None => {
            return None;
        },
    };
    let info = match &fields.info {
        Some(info) => info.clone(),
        None => String::new(),
    };
    Some(Forum { id, name, info, icon_url })
}

/// The views of a list of forum fields.
pub open spec fn fields_views(items: Seq<ForumFields>) -> Seq<ForumFieldsView> {
    items.map_values(|fields: ForumFields| fields@)
}

/// The views of a list of forums.
pub open spec fn forum_views(forums: Seq<Forum>) -> Seq<ForumView> {
    forums.map_values(|forum: Forum| forum@)
}

/// The forums that a list of fields describes, in the order of the list; fields
/// that describe no forum are left out.
pub open spec fn forums_of(items: Seq<ForumFieldsView>, icon_path: Seq<char>) -> Seq<ForumView>
    decreases items.len(),
{
    if items.len() == 0 {
        Seq::empty()
    } else {
        let init = forums_of(items.drop_last(), icon_path);
        match forum_of(items.last(), icon_path) {
            Some(forum) => init.push(forum),
            None => init,
        }
    }
}

/// Builds the forums that a list of fields describes.
pub fn extract_forums(items: &Vec<ForumFields>, icon_path: &str) -> (forums: Vec<Forum>)
    ensures
        forum_views(forums@) == forums_of(fields_views(items@), icon_path@),
{
    let mut forums: Vec<Forum> = Vec::new();
    let mut i: usize = 0;
    while i < items.len()
        invariant
            i <= items@.len(),
            forum_views(forums@) =~= forums_of(fields_views(items@).take(i as int), icon_path@),
        decreases items@.len() - i,
    {
        let ghost before = forum_views(forums@);
        let ghost views = fields_views(items@);
        assert(views.take(i + 1).drop_last() =~= views.take(i as int));
        assert(views.take(i + 1).last() == items@[i as int]@);
        match extract_forum(&items[i], icon_path) {
            Some(forum) => {
                forums.push(forum);
                assert(forum_views(forums@) =~= before.push(forum@));
            },
            None => {},
        }
        i += 1;
    }
    assert(fields_views(items@).take(i as int) =~= fields_views(items@));
    forums
}

/// A category of forums.
#[derive(Clone, Debug, PartialEq, Eq)]
pub struct Category {
    pub id: String,
    pub name: String,
    pub forums: Vec<Forum>,
}

pub struct CategoryView {
    pub id: Seq<char>,
    pub name: Seq<char>,
    pub forums: Seq<ForumView>,
}

impl View for Category {
    type V = CategoryView;

    open spec fn view(&self) -> CategoryView {
        CategoryView { id: self.id@, name: self.name@, forums: forum_views(self.forums@) }
    }
}

/// The fields of a category as a remote document gives them. `forums` is
/// absent where the document's list of forums could not be read.
#[derive(Clone, Debug)]
pub struct CategoryFields {
    pub id: Option<String>,
    pub name: Option<String>,
    pub forums: Option<Vec<ForumFields>>,
}

pub struct CategoryFieldsView {
    pub id: Option<Seq<char>>,
    pub name: Option<Seq<char>>,
    pub forums: Option<Seq<ForumFieldsView>>,
}

impl View for CategoryFields {
    type V = CategoryFieldsView;

    open spec fn view(&self) -> CategoryFieldsView {
        CategoryFieldsView {
            id: text(self.id),
            name: text(self.name),
            forums: match self.forums {
                Some(items) => Some(fields_views(items@)),
                None => None,
            },
        }
    }
}

/// The category that fields describe: it needs a list of forums, an identifier
/// and a name.
pub open spec fn category_of(fields: CategoryFieldsView, icon_path: Seq<char>) -> Option<
    CategoryView,
> {
    match (fields.forums, fields.id, fields.name) {
        (Some(items), Some(id), Some(name)) => Some(
            CategoryView { id, name, forums: forums_of(items, icon_path) },
        ),
        _ => None,
    }
}

/// The view of an optional category.
pub open spec fn category_view(category: Option<Category>) -> Option<CategoryView> {
    match category {
        Some(category) => Some(category@),
        None => None,
    }
}

/// Builds a category from its fields.
pub fn extract_category(fields: &CategoryFields, icon_path: &str) -> (category: Option<Category>)
    ensures
        category_view(category) == category_of(fields@, icon_path@),
{
    let forums = match &fields.forums {
        Some(items) => extract_forums(items, icon_path),
        None => {
            return None;
        },
    };
    let id = match &fields.id {
        Some(id) => id.clone(),
        None => {
            return None;
        },
    };
    let name = match &fields.name {
        Some(name) => name.clone(),
        None => {
            return None;
        },
    };
    Some(Category { id, name, forums })
}

/// The views of a list of category fields.
pub open spec fn category_fields_views(items: Seq<CategoryFields>) -> Seq<CategoryFieldsView> {
    items.map_values(|fields: CategoryFields| fields@)
}

/// The views of a list of categories.
pub open spec fn category_views(categories: Seq<Category>) -> Seq<CategoryView> {
    categories.map_values(|category: Category| category@)
}

/// The categories that a list of fields describes, in the order of the list;
/// fields that describe no category are left out.
pub open spec fn categories_of(items: Seq<CategoryFieldsView>, icon_path: Seq<char>) -> Seq<
    CategoryView,
>
    decreases items.len(),
{
    if items.len() == 0 {
        Seq::empty()
    } else {
        let init = categories_of(items.drop_last(), icon_path);
        match category_of(items.last(), icon_path) {
            Some(category) => init.push(category),
            None => init,
        }
    }
}

/// A call of the remote service: the page, the parameters of its address and
/// the fields of its form, each a name and a value.
#[derive(Clone, Debug, PartialEq, Eq)]
pub struct FetchCall {
    pub api: String,
    pub query: Vec<(String, String)>,
    pub form: Vec<(String, String)>,
}

/// The views of a list of names and values.
pub open spec fn pairs(items: Seq<(String, String)>) -> Seq<(Seq<char>, Seq<char>)> {
    items.map_values(|item: (String, String)| (item.0@, item.1@))
}

/// A name and a value.
fn pair(name: &str, value: &str) -> (item: (String, String))
    ensures
        item.0@ == name@,
        item.1@ == value@,
{
    (name.to_owned(), value.to_owned())
}

/// The request for the list of forums.
#[derive(Clone, Debug, Default)]
pub struct ForumListRequest {}

/// The list of forums, by category.
#[derive(Clone, Debug, PartialEq, Eq)]
pub struct ForumListResponse {
    pub categories: Vec<Category>,
}

/// The remote call that lists the forums.
pub fn forum_list_call() -> (call: FetchCall)
    ensures
        call.api@ == "app_api.php"@,
        pairs(call.query@) == seq![("__lib"@, "home"@), ("__act"@, "category"@)],
        call.form@.len() == 0,
{
    let mut query: Vec<(String, String)> = Vec::new();
    query.push(pair("__lib", "home"));
    query.push(pair("__act", "category"));
    assert(pairs(query@) =~= seq![("__lib"@, "home"@), ("__act"@, "category"@)]);
    FetchCall { api: "app_api.php".to_owned(), query, form: Vec::new() }
}

/// Builds the list of forums from the categories that the remote call gave.
pub fn get_forum_list(items: &Vec<CategoryFields>, icon_path: &str) -> (response:
    ForumListResponse)
    ensures
        category_views(response.categories@) == categories_of(
            category_fields_views(items@),
            icon_path@,
        ),
{
    let mut categories: Vec<Category> = Vec::new();
    let mut i: usize = 0;
    while i < items.len()
        invariant
            i <= items@.len(),
            category_views(categories@) =~= categories_of(
                category_fields_views(items@).take(i as int),
                icon_path@,
            ),
        decreases items@.len() - i,
    {
        let ghost before = category_views(categories@);
        let ghost views = category_fields_views(items@);
        assert(views.take(i + 1).drop_last() =~= views.take(i as int));
        assert(views.take(i + 1).last() == items@[i as int]@);
        match extract_category(&items[i], icon_path) {
            Some(category) => {
                categories.push(category);
                assert(category_views(categories@) =~= before.push(category@));
            },
            None => {},
        }
        i += 1;
    }
    assert(category_fields_views(items@).take(i as int) =~= category_fields_views(items@));
    ForumListResponse { categories }
}

/// What to do with a subforum in a forum's listing.
#[derive(Clone, Copy, Debug, PartialEq, Eq, Structural)]
pub enum SubforumFilterOperation {
    Show,
    Block,
}

/// The request to show or block a subforum.
#[derive(Clone, Debug)]
pub struct SubforumFilterRequest {
    pub forum_id: String,
    pub operation: SubforumFilterOperation,
    pub subforum_filter_id: String,
}

/// The answer to a filter request; it carries nothing.
#[derive(Clone, Debug, Default, PartialEq, Eq)]
pub struct SubforumFilterResponse {}

/// The name under which the remote service takes the subforum: showing one
/// deletes it from the blocked ones, blocking one adds it.
pub open spec fn filter_key(operation: SubforumFilterOperation) -> Seq<char> {
    match operation {
        SubforumFilterOperation::Show => "del"@,
        SubforumFilterOperation::Block => "add"@,
    }
}

/// The remote call that shows or blocks a subforum.
pub fn set_subforum_filter(request: &SubforumFilterRequest) -> (call: FetchCall)
    ensures
        call.api@ == "nuke.php"@,
        pairs(call.query@) == seq![
            ("__lib"@, "user_option"@),
            ("__act"@, "set"@),
            (filter_key(request.operation), request.subforum_filter_id@),
        ],
        pairs(call.form@) == seq![
            ("fid"@, request.forum_id@),
            ("type"@, "1"@),
            ("info"@, "add_to_block_tids"@),
        ],
{
    let op = match request.operation {
        SubforumFilterOperation::Show => "del",
        SubforumFilterOperation::Block => "add",
    };
    let mut query: Vec<(String, String)> = Vec::new();
    query.push(pair("__lib", "user_option"));
    query.push(pair("__act", "set"));
    query.push(pair(op, request.subforum_filter_id.as_str()));
    let mut form: Vec<(String, String)> = Vec::new();
    form.push(pair("fid", request.forum_id.as_str()));
    form.push(pair("type", "1"));
    form.push(pair("info", "add_to_block_tids"));
    assert(pairs(query@) =~= seq![
        ("__lib"@, "user_option"@),
        ("__act"@, "set"@),
        (filter_key(request.operation), request.subforum_filter_id@),
    ]);
    assert(pairs(form@) =~= seq![
        ("fid"@, request.forum_id@),
        ("type"@, "1"@),
        ("info"@, "add_to_block_tids"@),
    ]);
    FetchCall { api: "nuke.php".to_owned(), query, form }
}

/// The request to search the forums by a key.
#[derive(Clone, Debug)]
pub struct ForumSearchRequest {
    pub key: String,
}

/// The forums that a search found.
#[derive(Clone, Debug, PartialEq, Eq)]
pub struct ForumSearchResponse {
    pub forums: Vec<Forum>,
}

/// The remote call that searches the forums.
pub fn forum_search_call(request: &ForumSearchRequest) -> (call: FetchCall)
    ensures
        call.api@ == "forum.php"@,
        pairs(call.query@) == seq![("key"@, request.key@)],
        call.form@.len() == 0,
{
    let mut query: Vec<(String, String)> = Vec::new();
    query.push(pair("key", request.key.as_str()));
    assert(pairs(query@) =~= seq![("key"@, request.key@)]);
    FetchCall { api: "forum.php".to_owned(), query, form: Vec::new() }
}

/// Builds the answer to a search from the forums that the remote call gave.
pub fn search_forum(items: &Vec<ForumFields>, icon_path: &str) -> (response: ForumSearchResponse)
    ensures
        forum_views(response.forums@) == forums_of(fields_views(items@), icon_path@),
{
    ForumSearchResponse { forums: extract_forums(items, icon_path) }
}

} // verus!
