//! JSON values as the tools hand them around.
use crate::text::{str_eq, texts};
use vstd::prelude::*;

verus! {

/// A JSON value. Numbers that are no integers of 64 bits are kept as their text.
#[derive(Debug, PartialEq, Eq)]
pub enum Json {
    Null,
    Bool(bool),
    UInt(u64),
    Int(i64),
    Decimal(String),
    Text(String),
    Array(Vec<Json>),
    Object(Vec<Member>),
}

/// One member of a JSON object.
#[derive(Debug, PartialEq, Eq)]
pub struct Member {
    pub name: String,
    pub value: Json,
}

/// The mathematical value of a [`Json`].
#[verifier::ext_equal]
pub enum Tree {
    Null,
    Bool(bool),
    Number(int),
    Decimal(Seq<char>),
    Text(Seq<char>),
    Array(Seq<Tree>),
    Object(Seq<Field>),
}

/// The mathematical value of a [`Member`].
#[verifier::ext_equal]
pub struct Field {
    pub name: Seq<char>,
    pub value: Tree,
}

impl View for Json {
    type V = Tree;

    open spec fn view(&self) -> Tree
        decreases self,
    {
        match self {
            Json::Null => Tree::Null,
            Json::Bool(b) => Tree::Bool(*b),
            Json::UInt(n) => Tree::Number(*n as int),
            Json::Int(n) => Tree::Number(*n as int),
            Json::Decimal(s) => Tree::Decimal(s@),
            Json::Text(s) => Tree::Text(s@),
            Json::Array(items) => Tree::Array(
                Seq::new(
                    items@.len(),
                    |i: int|
                        if 0 <= i < items@.len() {
                            items@[i].view()
                        } else {
                            Tree::Null
                        },
                ),
            ),
            Json::Object(members) => Tree::Object(
                Seq::new(
                    members@.len(),
                    |i: int|
                        if 0 <= i < members@.len() {
                            Field { name: members@[i].name@, value: members@[i].value.view() }
                        } else {
                            arbitrary()
                        },
                ),
            ),
        }
    }
}

/// The values of a list.
pub open spec fn trees(items: Seq<Json>) -> Seq<Tree> {
    Seq::new(items.len(), |i: int| items[i]@)
}

/// The names and values of a list of members.
pub open spec fn fields(members: Seq<Member>) -> Seq<Field> {
    Seq::new(members.len(), |i: int| Field { name: members[i].name@, value: members[i].value@ })
}

/// The value of an array.
pub broadcast proof fn lemma_array_view(items: Vec<Json>)
    ensures
        #[trigger] Json::Array(items)@ == Tree::Array(trees(items@)),
{
    assert(Json::Array(items)@->Array_0 =~= trees(items@));
}

/// The value of an object.
pub broadcast proof fn lemma_object_view(members: Vec<Member>)
    ensures
        #[trigger] Json::Object(members)@ == Tree::Object(fields(members@)),
{
    let all = Json::Object(members)@->Object_0;
    assert(all.len() == members@.len());
    assert forall|i: int| 0 <= i < members@.len() implies #[trigger] all[i] == fields(members@)[i] by {
        assert(all[i] == Field { name: members@[i].name@, value: members@[i].value.view() });
    }
    assert(all =~= fields(members@));
}

// ---------------------------------------------------------------------------
// Reading
// ---------------------------------------------------------------------------

/// A member with the name and the value.
#[verifier::inline]
pub open spec fn field(name: Seq<char>, value: Tree) -> Field {
    Field { name, value }
}

/// The members of the empty object.
#[verifier::inline]
pub open spec fn no_fields() -> Seq<Field> {
    Seq::empty()
}

/// The first member with the name.
pub open spec fn find_field(members: Seq<Field>, name: Seq<char>) -> Option<Tree>
    decreases members.len(),
{
    if members.len() == 0 {
        None
    } else if members[0].name == name {
        Some(members[0].value)
    } else {
        find_field(members.skip(1), name)
    }
}

impl Tree {
    /// The member of an object with the name.
    pub open spec fn get(self, name: Seq<char>) -> Option<Tree> {
        match self {
            Tree::Object(members) => find_field(members, name),
            _ => None,
        }
    }

    /// The member of an object with the name, or null.
    pub open spec fn at(self, name: Seq<char>) -> Tree {
        match self.get(name) {
            Some(v) => v,
            None => Tree::Null,
        }
    }

    /// The text, where it is one.
    pub open spec fn as_text(self) -> Option<Seq<char>> {
        match self {
            Tree::Text(s) => Some(s),
            _ => None,
        }
    }

    /// The truth value, where it is one.
    pub open spec fn as_bool(self) -> Option<bool> {
        match self {
            Tree::Bool(b) => Some(b),
            _ => None,
        }
    }

    /// The number, where it is an unsigned one of 64 bits.
    pub open spec fn as_u64(self) -> Option<u64> {
        match self {
            Tree::Number(n) => if 0 <= n <= u64::MAX {
                Some(n as u64)
            } else {
                None
            },
            _ => None,
        }
    }

    /// The number, where it is a signed one of 64 bits.
    pub open spec fn as_i64(self) -> Option<i64> {
        match self {
            Tree::Number(n) => if i64::MIN <= n <= i64::MAX {
                Some(n as i64)
            } else {
                None
            },
            _ => None,
        }
    }

    /// The items, where it is an array.
    pub open spec fn as_array(self) -> Option<Seq<Tree>> {
        match self {
            Tree::Array(items) => Some(items),
            _ => None,
        }
    }

    /// The items of an array, or none.
    pub open spec fn items(self) -> Seq<Tree> {
        match self {
            Tree::Array(items) => items,
            _ => seq![],
        }
    }
}

/// The value of an optional reference.
pub open spec fn opt_tree(v: Option<&Json>) -> Option<Tree> {
    match v {
        Some(j) => Some(j@),
        None => None,
    }
}

/// The value of an optional reference, or null.
pub open spec fn tree_or_null(v: Option<&Json>) -> Tree {
    match v {
        Some(j) => j@,
        None => Tree::Null,
    }
}

impl Json {
    /// The member of an object with the name.
    pub fn get(&self, name: &str) -> (r: Option<&Json>)
        ensures
            opt_tree(r) == self@.get(name@),
    {
        broadcast use lemma_object_view;

        match self {
            Json::Object(members) => {
                let ghost all = fields(members@);
                assert(self@ == Tree::Object(all));
                let mut i: usize = 0;
                assert(all.skip(0) =~= all);
                while i < members.len()
                    invariant
                        i <= members@.len(),
                        all == fields(members@),
                        self@ == Tree::Object(all),
                        find_field(all, name@) == find_field(all.skip(i as int), name@),
                    decreases members@.len() - i,
                {
                    assert(all.skip(i as int)[0].value == members@[i as int].value@);
                    if str_eq(members[i].name.as_str(), name) {
                        return Some(&members[i].value);
                    }
                    assert(all.skip(i as int).skip(1) =~= all.skip(i + 1));
                    i = i + 1;
                }
                None
            },
            _ => None,
        }
    }

    /// The member that two names lead to.
    pub fn get2(&self, first: &str, second: &str) -> (r: Option<&Json>)
        ensures
            opt_tree(r) == self@.at(first@).get(second@),
    {
        match self.get(first) {
            Some(v) => v.get(second),
            None => None,
        }
    }

    /// The text, where it is one.
    pub fn as_str(&self) -> (r: Option<&str>)
        ensures
            self@.as_text() == (match r {
                Some(s) => Some(s@),
                None => None,
            }),
    {
        match self {
            Json::Text(s) => Some(s.as_str()),
            _ => None,
        }
    }

    /// The truth value, where it is one.
    pub fn as_bool(&self) -> (r: Option<bool>)
        ensures
            r == self@.as_bool(),
    {
        match self {
            Json::Bool(b) => Some(*b),
            _ => None,
        }
    }

    /// The number, where it is an unsigned one of 64 bits.
    pub fn as_u64(&self) -> (r: Option<u64>)
        ensures
            r == self@.as_u64(),
    {
        match self {
            Json::UInt(n) => Some(*n),
            Json::Int(n) => if *n >= 0 {
                Some(*n as u64)
            } else {
                None
            },
            _ => None,
        }
    }

    /// The number, where it is a signed one of 64 bits.
    pub fn as_i64(&self) -> (r: Option<i64>)
        ensures
            r == self@.as_i64(),
    {
        match self {
            Json::UInt(n) => if *n <= 0x7fff_ffff_ffff_ffff {
                Some(*n as i64)
            } else {
                None
            },
            Json::Int(n) => Some(*n),
            _ => None,
        }
    }

    /// The items, where it is an array.
    pub fn as_array(&self) -> (r: Option<&Vec<Json>>)
        ensures
            self@.as_array() == (match r {
                Some(items) => Some(trees(items@)),
                None => None,
            }),
    {
        broadcast use lemma_array_view;

        match self {
            Json::Array(items) => Some(items),
            _ => None,
        }
    }

    /// Whether it is null.
    pub fn is_null(&self) -> (r: bool)
        ensures
            r == (self@ is Null),
    {
        match self {
            Json::Null => true,
            _ => false,
        }
    }

    /// Whether it is an object.
    pub fn is_object(&self) -> (r: bool)
        ensures
            r == (self@ is Object),
    {
        match self {
            Json::Object(_) => true,
            _ => false,
        }
    }

    /// A copy with the same value.
    pub fn copy(&self) -> (r: Json)
        ensures
            r@ == self@,
        decreases self,
    {
        broadcast use {lemma_array_view, lemma_object_view};

        match self {
            Json::Null => Json::Null,
            Json::Bool(b) => Json::Bool(*b),
            Json::UInt(n) => Json::UInt(*n),
            Json::Int(n) => Json::Int(*n),
            Json::Decimal(s) => Json::Decimal(s.clone()),
            Json::Text(s) => Json::Text(s.clone()),
            Json::Array(items) => {
                let mut out: Vec<Json> = Vec::new();
                let mut i: usize = 0;
                while i < items.len()
                    invariant
                        i <= items@.len(),
                        out@.len() == i,
                        decreases_to!(self => items),
                        forall|j: int| 0 <= j < i ==> (#[trigger] out@[j])@ == items@[j]@,
                    decreases items@.len() - i,
                {
                    out.push(items[i].copy());
                    i = i + 1;
                }
                assert(trees(out@) =~= trees(items@));
                Json::Array(out)
            },
            Json::Object(members) => {
                let mut out: Vec<Member> = Vec::new();
                let mut i: usize = 0;
                while i < members.len()
                    invariant
                        i <= members@.len(),
                        out@.len() == i,
                        decreases_to!(self => members),
                        forall|j: int|
                            0 <= j < i ==> (#[trigger] out@[j]).name@ == members@[j].name@
                                && out@[j].value@ == members@[j].value@,
                    decreases members@.len() - i,
                {
                    out.push(
                        Member {
                            name: members[i].name.clone(),
                            value: members[i].value.copy(),
                        },
                    );
                    i = i + 1;
                }
                assert(fields(out@) =~= fields(members@));
                Json::Object(out)
            },
        }
    }
}

// ---------------------------------------------------------------------------
// Building
// ---------------------------------------------------------------------------

/// An object under construction.
pub struct ObjectBuilder {
    members: Vec<Member>,
}

impl View for ObjectBuilder {
    type V = Seq<Field>;

    closed spec fn view(&self) -> Seq<Field> {
        fields(self.members@)
    }
}

impl ObjectBuilder {
    /// The object without members.
    pub fn new() -> (r: Self)
        ensures
            r@ == Seq::<Field>::empty(),
    {
        let r = ObjectBuilder { members: Vec::new() };
        assert(r@ =~= Seq::<Field>::empty());
        r
    }

    /// The object with one more member.
    pub fn with(self, name: &str, value: Json) -> (r: Self)
        ensures
            r@ == self@.push(field(name@, value@)),
    {
        let mut members = self.members;
        members.push(Member { name: name.to_owned(), value });
        let r = ObjectBuilder { members };
        assert(r@ =~= self@.push(field(name@, value@)));
        r
    }

    /// The object.
    pub fn build(self) -> (r: Json)
        ensures
            r@ == Tree::Object(self@),
    {
        broadcast use lemma_object_view;

        Json::Object(self.members)
    }
}

/// The items of the empty array.
#[verifier::inline]
pub open spec fn no_trees() -> Seq<Tree> {
    Seq::empty()
}

/// An array under construction.
pub struct ArrayBuilder {
    items: Vec<Json>,
}

impl View for ArrayBuilder {
    type V = Seq<Tree>;

    closed spec fn view(&self) -> Seq<Tree> {
        trees(self.items@)
    }
}

impl ArrayBuilder {
    /// The array without items.
    pub fn new() -> (r: Self)
        ensures
            r@ == Seq::<Tree>::empty(),
    {
        let r = ArrayBuilder { items: Vec::new() };
        assert(r@ =~= Seq::<Tree>::empty());
        r
    }

    /// The array with one more item.
    pub fn with(self, item: Json) -> (r: Self)
        ensures
            r@ == self@.push(item@),
    {
        let mut items = self.items;
        items.push(item);
        let r = ArrayBuilder { items };
        assert(r@ =~= self@.push(item@));
        r
    }

    /// The array with one more text.
    pub fn with_text(self, s: &str) -> (r: Self)
        ensures
            r@ == self@.push(Tree::Text(s@)),
    {
        self.with(text(s))
    }

    /// The array.
    pub fn build(self) -> (r: Json)
        ensures
            r@ == Tree::Array(self@),
    {
        broadcast use lemma_array_view;

        Json::Array(self.items)
    }
}

/// `members` with the value of the name replaced, or added at the end.
pub open spec fn put_field(members: Seq<Field>, name: Seq<char>, value: Tree) -> Seq<Field>
    decreases members.len(),
{
    if members.len() == 0 {
        seq![field(name, value)]
    } else if members[0].name == name {
        members.update(0, field(name, value))
    } else {
        seq![members[0]] + put_field(members.skip(1), name, value)
    }
}

impl Tree {
    /// The object with the value of the name replaced or added.
    pub open spec fn put(self, name: Seq<char>, value: Tree) -> Tree {
        match self {
            Tree::Object(members) => Tree::Object(put_field(members, name, value)),
            _ => self,
        }
    }

    /// The array with one more item.
    pub open spec fn push(self, item: Tree) -> Tree {
        match self {
            Tree::Array(items) => Tree::Array(items.push(item)),
            _ => self,
        }
    }
}

impl Json {
    /// Replaces the value of a name in an object, or adds it. Anything but an object
    /// stays as it is.
    pub fn set(&mut self, name: &str, value: Json)
        ensures
            final(self)@ == old(self)@.put(name@, value@),
    {
        broadcast use lemma_object_view;

        match self {
            Json::Object(members) => {
                put_member(members, name, value);
            },
            _ => {},
        }
    }

    /// Adds an item to an array. Anything but an array stays as it is.
    pub fn push(&mut self, item: Json)
        ensures
            final(self)@ == old(self)@.push(item@),
    {
        broadcast use lemma_array_view;

        match self {
            Json::Array(items) => {
                push_item(items, item);
            },
            _ => {},
        }
    }
}

fn push_item(items: &mut Vec<Json>, item: Json)
    ensures
        trees(final(items)@) == trees(old(items)@).push(item@),
{
    items.push(item);
    assert(trees(items@) =~= trees(old(items)@).push(item@));
}

proof fn lemma_put_field_at(all: Seq<Field>, name: Seq<char>, value: Tree, k: int)
    requires
        0 <= k <= all.len(),
        forall|j: int| 0 <= j < k ==> (#[trigger] all[j]).name != name,
        k < all.len() ==> all[k].name == name,
    ensures
        put_field(all, name, value) == (if k < all.len() {
            all.update(k, field(name, value))
        } else {
            all.push(field(name, value))
        }),
    decreases all.len(),
{
    if all.len() == 0 {
        assert(all.push(field(name, value)) =~= seq![field(name, value)]);
    } else if k > 0 {
        let t = all.skip(1);
        assert forall|j: int| 0 <= j < k - 1 implies (#[trigger] t[j]).name != name by {
            assert(t[j] == all[j + 1]);
        }
        lemma_put_field_at(t, name, value, k - 1);
        if k < all.len() {
            assert(seq![all[0]] + t.update(k - 1, field(name, value)) =~= all.update(
                k,
                field(name, value),
            ));
        } else {
            assert(seq![all[0]] + t.push(field(name, value)) =~= all.push(field(name, value)));
        }
    }
}

fn put_member(members: &mut Vec<Member>, name: &str, value: Json)
    ensures
        fields(final(members)@) == put_field(fields(old(members)@), name@, value@),
{
    let ghost all = fields(members@);
    let mut i: usize = 0;
    while i < members.len() && !str_eq(members[i].name.as_str(), name)
        invariant
            i <= members@.len(),
            all == fields(members@),
            forall|j: int| 0 <= j < i ==> (#[trigger] all[j]).name != name@,
        decreases members@.len() - i,
    {
        i = i + 1;
    }
    proof {
        lemma_put_field_at(all, name@, value@, i as int);
    }
    if i < members.len() {
        members.set(i, Member { name: name.to_owned(), value });
        assert(fields(members@) =~= all.update(i as int, field(name@, value@)));
    } else {
        members.push(Member { name: name.to_owned(), value });
        assert(fields(members@) =~= all.push(field(name@, value@)));
    }
}

/// A text value.
pub fn text(s: &str) -> (r: Json)
    ensures
        r@ == Tree::Text(s@),
{
    Json::Text(s.to_owned())
}

/// The value of an optional text: the text or null.
pub open spec fn opt_text_tree(v: Option<Seq<char>>) -> Tree {
    match v {
        Some(s) => Tree::Text(s),
        None => Tree::Null,
    }
}

/// The text or null.
pub fn opt_text_json(v: &Option<String>) -> (r: Json)
    ensures
        r@ == opt_text_tree(crate::text::opt_text(*v)),
{
    match v {
        Some(s) => Json::Text(s.clone()),
        None => Json::Null,
    }
}

/// A truth value.
pub fn boolean(b: bool) -> (r: Json)
    ensures
        r@ == Tree::Bool(b),
{
    Json::Bool(b)
}

/// The null value.
pub fn null() -> (r: Json)
    ensures
        r@ == Tree::Null,
{
    Json::Null
}

/// A signed number.
pub fn signed(n: i64) -> (r: Json)
    ensures
        r@ == Tree::Number(n as int),
{
    Json::Int(n)
}

/// An unsigned number.
pub fn unsigned(n: u64) -> (r: Json)
    ensures
        r@ == Tree::Number(n as int),
{
    Json::UInt(n)
}

/// A number.
pub fn number(n: usize) -> (r: Json)
    ensures
        r@ == Tree::Number(n as int),
{
    Json::UInt(n as u64)
}

/// The values of texts.
pub open spec fn text_trees(v: Seq<Seq<char>>) -> Tree {
    Tree::Array(Seq::new(v.len(), |i: int| Tree::Text(v[i])))
}

/// An array of texts.
pub fn text_array(v: &Vec<String>) -> (r: Json)
    ensures
        r@ == text_trees(texts(v@)),
{
    broadcast use lemma_array_view;

    let mut out: Vec<Json> = Vec::new();
    let mut i: usize = 0;
    while i < v.len()
        invariant
            i <= v@.len(),
            out@.len() == i,
            forall|j: int| 0 <= j < i ==> (#[trigger] out@[j])@ == Tree::Text(v@[j]@),
        decreases v@.len() - i,
    {
        out.push(Json::Text(v[i].clone()));
        i = i + 1;
    }
    assert(trees(out@) =~= Seq::new(v@.len(), |i: int| Tree::Text(texts(v@)[i])));
    Json::Array(out)
}

/// The value of an array of `items`.
pub fn array(items: Vec<Json>) -> (r: Json)
    ensures
        r@ == Tree::Array(trees(items@)),
{
    broadcast use lemma_array_view;

    Json::Array(items)
}

pub proof fn lemma_find_put(members: Seq<Field>, name: Seq<char>, value: Tree, other: Seq<char>)
    ensures
        find_field(put_field(members, name, value), other) == (if other == name {
            Some(value)
        } else {
            find_field(members, other)
        }),
    decreases members.len(),
{
    let put = put_field(members, name, value);
    if members.len() == 0 {
        assert(put[0] == field(name, value));
        assert(put.skip(1) =~= Seq::empty());
        assert(find_field(put.skip(1), other) is None);
    } else if members[0].name == name {
        assert(put.skip(1) =~= members.skip(1));
    } else {
        lemma_find_put(members.skip(1), name, value, other);
        assert(put[0] == members[0]);
        assert(put.skip(1) =~= put_field(members.skip(1), name, value));
    }
}

/// What was put into an object under a name is found there, and what stands under
/// A member at the end of an object is found under its name where no other one is.
pub broadcast proof fn lemma_find_push(members: Seq<Field>, last: Field, name: Seq<char>)
    ensures
        #[trigger] find_field(members.push(last), name) == (match find_field(members, name) {
            Some(v) => Some(v),
            None => if last.name == name {
                Some(last.value)
            } else {
                None
            },
        }),
    decreases members.len(),
{
    let all = members.push(last);
    if members.len() == 0 {
        assert(all.skip(1) =~= members);
        assert(find_field(all.skip(1), name) is None);
    } else {
        assert(all.skip(1) =~= members.skip(1).push(last));
        lemma_find_push(members.skip(1), last, name);
    }
}

/// other names stays.
pub proof fn law_put_get(object: Tree, name: Seq<char>, value: Tree, other: Seq<char>)
    requires
        object is Object,
    ensures
        object.put(name, value).get(name) == Some(value),
        other != name ==> object.put(name, value).get(other) == object.get(other),
{
    lemma_find_put(object->Object_0, name, value, name);
    lemma_find_put(object->Object_0, name, value, other);
}

/// The fields as an object. Of two with one name the later counts.
pub open spec fn collected(members: Seq<Field>) -> Seq<Field>
    decreases members.len(),
{
    if members.len() == 0 {
        Seq::empty()
    } else {
        put_field(collected(members.drop_last()), members.last().name, members.last().value)
    }
}

impl ObjectBuilder {
    /// The object in which each name stands once: of two members with one name the
    /// later counts.
    pub fn collect(self) -> (r: Json)
        ensures
            r@ == Tree::Object(collected(self@)),
    {
        broadcast use lemma_object_view;

        let ghost all = self@;
        let mut out: Vec<Member> = Vec::new();
        let mut i: usize = 0;
        assert(fields(out@) =~= collected(all.take(0)));
        while i < self.members.len()
            invariant
                i <= self.members@.len(),
                all == fields(self.members@),
                fields(out@) == collected(all.take(i as int)),
            decreases self.members@.len() - i,
        {
            let member = &self.members[i];
            proof {
                assert(all.take(i + 1).drop_last() =~= all.take(i as int));
                assert(all.take(i + 1).last() == field(member.name@, member.value@));
            }
            put_member(&mut out, member.name.as_str(), member.value.copy());
            i = i + 1;
        }
        assert(all.take(i as int) =~= all);
        Json::Object(out)
    }
}

/// The value, or the default where there is none.
pub open spec fn tree_or(v: Option<Tree>, default: Tree) -> Tree {
    match v {
        Some(t) => t,
        None => default,
    }
}

/// The number, or zero where there is none.
pub open spec fn count_of(v: Tree) -> u64 {
    match v.as_u64() {
        Some(n) => n,
        None => 0,
    }
}

/// A copy of the value, or the default where there is none.
pub fn copy_or(v: Option<&Json>, default: Json) -> (r: Json)
    ensures
        r@ == tree_or(opt_tree(v), default@),
{
    match v {
        Some(j) => j.copy(),
        None => default,
    }
}

impl Json {
    /// The member that three names lead to.
    pub fn get3(&self, first: &str, second: &str, third: &str) -> (r: Option<&Json>)
        ensures
            opt_tree(r) == self@.at(first@).at(second@).get(third@),
    {
        match self.get2(first, second) {
            Some(v) => v.get(third),
            None => None,
        }
    }

    /// A copy of the member with the name, or null.
    pub fn at(&self, name: &str) -> (r: Json)
        ensures
            r@ == self@.at(name@),
    {
        copy_or(self.get(name), null())
    }

    /// A copy of the member that two names lead to, or null.
    pub fn at2(&self, first: &str, second: &str) -> (r: Json)
        ensures
            r@ == self@.at(first@).at(second@),
    {
        copy_or(self.get2(first, second), null())
    }

    /// A copy of the member that three names lead to, or null.
    pub fn at3(&self, first: &str, second: &str, third: &str) -> (r: Json)
        ensures
            r@ == self@.at(first@).at(second@).at(third@),
    {
        copy_or(self.get3(first, second, third), null())
    }

    /// The truth value of the member with the name.
    pub fn bool_at(&self, name: &str) -> (r: Option<bool>)
        ensures
            r == self@.at(name@).as_bool(),
    {
        match self.get(name) {
            Some(v) => v.as_bool(),
            None => None,
        }
    }

    /// The truth value of the member that two names lead to.
    pub fn bool_at2(&self, first: &str, second: &str) -> (r: Option<bool>)
        ensures
            r == self@.at(first@).at(second@).as_bool(),
    {
        match self.get2(first, second) {
            Some(v) => v.as_bool(),
            None => None,
        }
    }

    /// The number of the member with the name.
    pub fn u64_at(&self, name: &str) -> (r: Option<u64>)
        ensures
            r == self@.at(name@).as_u64(),
    {
        match self.get(name) {
            Some(v) => v.as_u64(),
            None => None,
        }
    }

    /// The number of the member that two names lead to, or zero.
    pub fn count_at2(&self, first: &str, second: &str) -> (r: u64)
        ensures
            r == count_of(self@.at(first@).at(second@)),
    {
        match self.get2(first, second) {
            Some(v) => match v.as_u64() {
                Some(n) => n,
                None => 0,
            },
            None => 0,
        }
    }

    /// The number of the member with the name, or zero.
    pub fn count_at(&self, name: &str) -> (r: u64)
        ensures
            r == count_of(self@.at(name@)),
    {
        match self.u64_at(name) {
            Some(n) => n,
            None => 0,
        }
    }

    /// The signed number of the member with the name.
    pub fn i64_at(&self, name: &str) -> (r: Option<i64>)
        ensures
            r == self@.at(name@).as_i64(),
    {
        match self.get(name) {
            Some(v) => v.as_i64(),
            None => None,
        }
    }

    /// Whether the member with the name is this text.
    pub fn is_text_at(&self, name: &str, wanted: &str) -> (r: bool)
        ensures
            r == (self@.at(name@).as_text() == Some(wanted@)),
    {
        match self.get(name) {
            Some(v) => match v.as_str() {
                Some(s) => str_eq(s, wanted),
                None => false,
            },
            None => false,
        }
    }

    /// The items of the member with the name, or none.
    pub fn items_at(&self, name: &str) -> (r: Vec<Json>)
        ensures
            trees(r@) == self@.at(name@).items(),
    {
        copy_items(self.get(name))
    }
}

/// Copies of the items of an array, or none.
pub fn copy_items(v: Option<&Json>) -> (r: Vec<Json>)
    ensures
        trees(r@) == tree_or_null(v).items(),
{
    let mut out: Vec<Json> = Vec::new();
    assert(trees(out@) =~= seq![]);
    if let Some(value) = v {
        if let Some(items) = value.as_array() {
            let mut i: usize = 0;
            while i < items.len()
                invariant
                    i <= items@.len(),
                    out@.len() == i,
                    forall|j: int| 0 <= j < i ==> (#[trigger] out@[j])@ == items@[j]@,
                decreases items@.len() - i,
            {
                out.push(items[i].copy());
                i = i + 1;
            }
            assert(trees(out@) =~= trees(items@));
        }
    }
    out
}

/// The items of one array behind those of another.
pub fn extend_items(out: &mut Vec<Json>, more: &Vec<Json>)
    ensures
        trees(final(out)@) == trees(old(out)@) + trees(more@),
{
    let ghost base = trees(out@);
    let mut i: usize = 0;
    assert(base + trees(more@).take(0) =~= base);
    while i < more.len()
        invariant
            i <= more@.len(),
            trees(out@) == base + trees(more@).take(i as int),
        decreases more@.len() - i,
    {
        let ghost before = trees(out@);
        let item = more[i].copy();
        out.push(item);
        assert(trees(out@) =~= before.push(item@));
        assert(before.push(item@) =~= base + trees(more@).take(i + 1));
        i = i + 1;
    }
    assert(trees(more@).take(i as int) =~= trees(more@));
}

/// Adds an item to a list.
pub fn push_json(out: &mut Vec<Json>, item: Json)
    ensures
        trees(final(out)@) == trees(old(out)@).push(item@),
{
    push_item(out, item);
}

/// The empty list.
pub fn no_items() -> (r: Vec<Json>)
    ensures
        trees(r@) == Seq::<Tree>::empty(),
{
    let r: Vec<Json> = Vec::new();
    assert(trees(r@) =~= Seq::<Tree>::empty());
    r
}

/// The empty array.
pub fn empty_array() -> (r: Json)
    ensures
        r@ == Tree::Array(Seq::empty()),
{
    array(no_items())
}

/// The empty object.
pub fn empty_object() -> (r: Json)
    ensures
        r@ == Tree::Object(Seq::empty()),
{
    ObjectBuilder::new().build()
}

} // verus!
