//! The state store: values of several types under string paths.

use crate::editor::{Editor, EditorView};
use crate::error::{Error, Failure};
use crate::issue::model::{issue_views, InternalCall, IssueList, IssueView};
use crate::text::texts;
use crate::window::Mode;
use vstd::prelude::*;
use vstd::string::*;

verus! {

/// A value in the store: one of the types that the application keeps there.
#[derive(Debug)]
pub enum Value {
    Bool(bool),
    Index(usize),
    Text(String),
    List(Vec<String>),
    Mode(Mode),
    Editor(Editor),
    Call(Option<InternalCall>),
    Issues(IssueList),
}

/// What a [`Value`] holds.
pub enum ValueView {
    Bool(bool),
    Index(usize),
    Text(Seq<char>),
    List(Seq<Seq<char>>),
    Mode(Mode),
    Editor(EditorView),
    Call(Option<InternalCall>),
    Issues(Seq<(Seq<char>, IssueView)>),
}

impl View for Value {
    type V = ValueView;

    open spec fn view(&self) -> ValueView {
        match self {
            Value::Bool(flag) => ValueView::Bool(*flag),
            Value::Index(index) => ValueView::Index(*index),
            Value::Text(text) => ValueView::Text(text@),
            Value::List(list) => ValueView::List(texts(list@)),
            Value::Mode(mode) => ValueView::Mode(*mode),
            Value::Editor(editor) => ValueView::Editor(editor@),
            Value::Call(call) => ValueView::Call(*call),
            Value::Issues(issues) => ValueView::Issues(issue_views(issues@)),
        }
    }
}

/// What a store holds, path by path.
pub type Model = Map<Seq<char>, ValueView>;

/// What the values of a store hold.
pub open spec fn model_of(store: Map<Seq<char>, Value>) -> Model {
    store.map_values(|value: Value| value@)
}

/// Why a read failed.
#[derive(Clone, Copy, Debug, PartialEq, Eq, Structural)]
pub enum Fault {
    /// Nothing was written under the path.
    NotFound,
    /// What was written under the path is of another type than was asked for.
    InvalidType,
}

/// A failed read, with the path that was read.
#[derive(Debug, PartialEq, Eq)]
pub enum StoreError {
    InvalidType(String),
    NotFound(String),
}

impl StoreError {
    /// Why the read failed.
    pub open spec fn fault(&self) -> Fault {
        match self {
            StoreError::InvalidType(_) => Fault::InvalidType,
            StoreError::NotFound(_) => Fault::NotFound,
        }
    }

    /// The path that was read.
    pub open spec fn path(&self) -> Seq<char> {
        match self {
            StoreError::InvalidType(key) => key@,
            StoreError::NotFound(key) => key@,
        }
    }

    /// Why the read failed.
    pub fn kind(&self) -> (fault: Fault)
        ensures
            fault == self.fault(),
    {
        match self {
            StoreError::InvalidType(_) => Fault::InvalidType,
            StoreError::NotFound(_) => Fault::NotFound,
        }
    }

    /// The message for the user.
    pub fn to_string(&self) -> (message: String)
        ensures
            message@ == match self {
                StoreError::InvalidType(key) => "Invalid type requested: "@ + key@,
                StoreError::NotFound(key) => "Property not found: "@ + key@,
            },
    {
        match self {
            StoreError::InvalidType(key) => String::from_str("Invalid type requested: ").concat(
                key.as_str(),
            ),
            StoreError::NotFound(key) => String::from_str("Property not found: ").concat(
                key.as_str(),
            ),
        }
    }
}

/// A type whose values the store can hold.
pub trait Stored: Sized {
    /// Whether `value` holds a value of this type.
    spec fn holds(value: Value) -> bool;

    /// The value of this type that `value` holds.
    spec fn held(value: Value) -> Self;

    /// The store value that holds `self`.
    spec fn stored(self) -> Value;

    /// What was stored is what is held.
    proof fn lemma_stored(self)
        ensures
            Self::holds(self.stored()),
            Self::held(self.stored()) == self,
    ;

    /// What is held is what was stored.
    proof fn lemma_held(value: Value)
        requires
            Self::holds(value),
        ensures
            Self::held(value).stored() == value,
    ;

    /// Wraps `self` for the store.
    fn store(self) -> (value: Value)
        ensures
            value == self.stored(),
    ;

    /// The value of this type in `value`, if it holds one.
    fn pick(value: &Value) -> (picked: Option<&Self>)
        ensures
            picked is Some == Self::holds(*value),
            picked is Some ==> *picked->0 == Self::held(*value),
    ;

    /// The value of this type in `value`, if it holds one, to change it in
    /// place.
    fn pick_mut(value: &mut Value) -> (picked: Option<&mut Self>)
        ensures
            match picked {
                Some(part) => {
                    &&& Self::holds(*old(value))
                    &&& *part == Self::held(*old(value))
                    &&& *final(value) == (*final(part)).stored()
                },
                None => !Self::holds(*old(value)) && *final(value) == *old(value),
            },
    ;
}

impl Stored for bool {
    open spec fn holds(value: Value) -> bool {
        value is Bool
    }

    open spec fn held(value: Value) -> bool {
        value->Bool_0
    }

    open spec fn stored(self) -> Value {
        Value::Bool(self)
    }

    proof fn lemma_stored(self) {
    }

    proof fn lemma_held(value: Value) {
    }

    fn store(self) -> (value: Value) {
        Value::Bool(self)
    }

    fn pick(value: &Value) -> (picked: Option<&bool>) {
        match value {
            Value::Bool(held) => Some(held),
            _ => None,
        }
    }

    fn pick_mut(value: &mut Value) -> (picked: Option<&mut bool>) {
        match value {
            Value::Bool(held) => Some(held),
            _ => None,
        }
    }
}

impl Stored for usize {
    open spec fn holds(value: Value) -> bool {
        value is Index
    }

    open spec fn held(value: Value) -> usize {
        value->Index_0
    }

    open spec fn stored(self) -> Value {
        Value::Index(self)
    }

    proof fn lemma_stored(self) {
    }

    proof fn lemma_held(value: Value) {
    }

    fn store(self) -> (value: Value) {
        Value::Index(self)
    }

    fn pick(value: &Value) -> (picked: Option<&usize>) {
        match value {
            Value::Index(held) => Some(held),
            _ => None,
        }
    }

    fn pick_mut(value: &mut Value) -> (picked: Option<&mut usize>) {
        match value {
            Value::Index(held) => Some(held),
            _ => None,
        }
    }
}

impl Stored for String {
    open spec fn holds(value: Value) -> bool {
        value is Text
    }

    open spec fn held(value: Value) -> String {
        value->Text_0
    }

    open spec fn stored(self) -> Value {
        Value::Text(self)
    }

    proof fn lemma_stored(self) {
    }

    proof fn lemma_held(value: Value) {
    }

    fn store(self) -> (value: Value) {
        Value::Text(self)
    }

    fn pick(value: &Value) -> (picked: Option<&String>) {
        match value {
            Value::Text(held) => Some(held),
            _ => None,
        }
    }

    fn pick_mut(value: &mut Value) -> (picked: Option<&mut String>) {
        match value {
            Value::Text(held) => Some(held),
            _ => None,
        }
    }
}

impl Stored for Vec<String> {
    open spec fn holds(value: Value) -> bool {
        value is List
    }

    open spec fn held(value: Value) -> Vec<String> {
        value->List_0
    }

    open spec fn stored(self) -> Value {
        Value::List(self)
    }

    proof fn lemma_stored(self) {
    }

    proof fn lemma_held(value: Value) {
    }

    fn store(self) -> (value: Value) {
        Value::List(self)
    }

    fn pick(value: &Value) -> (picked: Option<&Vec<String>>) {
        match value {
            Value::List(held) => Some(held),
            _ => None,
        }
    }

    fn pick_mut(value: &mut Value) -> (picked: Option<&mut Vec<String>>) {
        match value {
            Value::List(held) => Some(held),
            _ => None,
        }
    }
}

impl Stored for Mode {
    open spec fn holds(value: Value) -> bool {
        value is Mode
    }

    open spec fn held(value: Value) -> Mode {
        value->Mode_0
    }

    open spec fn stored(self) -> Value {
        Value::Mode(self)
    }

    proof fn lemma_stored(self) {
    }

    proof fn lemma_held(value: Value) {
    }

    fn store(self) -> (value: Value) {
        Value::Mode(self)
    }

    fn pick(value: &Value) -> (picked: Option<&Mode>) {
        match value {
            Value::Mode(held) => Some(held),
            _ => None,
        }
    }

    fn pick_mut(value: &mut Value) -> (picked: Option<&mut Mode>) {
        match value {
            Value::Mode(held) => Some(held),
            _ => None,
        }
    }
}

impl Stored for Editor {
    open spec fn holds(value: Value) -> bool {
        value is Editor
    }

    open spec fn held(value: Value) -> Editor {
        value->Editor_0
    }

    open spec fn stored(self) -> Value {
        Value::Editor(self)
    }

    proof fn lemma_stored(self) {
    }

    proof fn lemma_held(value: Value) {
    }

    fn store(self) -> (value: Value) {
        Value::Editor(self)
    }

    fn pick(value: &Value) -> (picked: Option<&Editor>) {
        match value {
            Value::Editor(held) => Some(held),
            _ => None,
        }
    }

    fn pick_mut(value: &mut Value) -> (picked: Option<&mut Editor>) {
        match value {
            Value::Editor(held) => Some(held),
            _ => None,
        }
    }
}

impl Stored for Option<InternalCall> {
    open spec fn holds(value: Value) -> bool {
        value is Call
    }

    open spec fn held(value: Value) -> Option<InternalCall> {
        value->Call_0
    }

    open spec fn stored(self) -> Value {
        Value::Call(self)
    }

    proof fn lemma_stored(self) {
    }

    proof fn lemma_held(value: Value) {
    }

    fn store(self) -> (value: Value) {
        Value::Call(self)
    }

    fn pick(value: &Value) -> (picked: Option<&Option<InternalCall>>) {
        match value {
            Value::Call(held) => Some(held),
            _ => None,
        }
    }

    fn pick_mut(value: &mut Value) -> (picked: Option<&mut Option<InternalCall>>) {
        match value {
            Value::Call(held) => Some(held),
            _ => None,
        }
    }
}

impl Stored for IssueList {
    open spec fn holds(value: Value) -> bool {
        value is Issues
    }

    open spec fn held(value: Value) -> IssueList {
        value->Issues_0
    }

    open spec fn stored(self) -> Value {
        Value::Issues(self)
    }

    proof fn lemma_stored(self) {
    }

    proof fn lemma_held(value: Value) {
    }

    fn store(self) -> (value: Value) {
        Value::Issues(self)
    }

    fn pick(value: &Value) -> (picked: Option<&IssueList>) {
        match value {
            Value::Issues(held) => Some(held),
            _ => None,
        }
    }

    fn pick_mut(value: &mut Value) -> (picked: Option<&mut IssueList>) {
        match value {
            Value::Issues(held) => Some(held),
            _ => None,
        }
    }
}

/// What a read of `key` for a value of type `T` gives.
pub open spec fn lookup<T: Stored>(store: Map<Seq<char>, Value>, key: Seq<char>) -> Result<T, Fault> {
    if !store.contains_key(key) {
        Err(Fault::NotFound)
    } else if !T::holds(store[key]) {
        Err(Fault::InvalidType)
    } else {
        Ok(T::held(store[key]))
    }
}

/// Whether one of `names` is `key`.
pub open spec fn named(names: Seq<String>, key: Seq<char>) -> bool {
    exists|i: int| 0 <= i < names.len() && (#[trigger] names[i])@ == key
}

/// The index at which `key` stands in `names`.
pub open spec fn index_of(names: Seq<String>, key: Seq<char>) -> int {
    choose|i: int| 0 <= i < names.len() && (#[trigger] names[i])@ == key
}

/// No name occurs twice.
pub open spec fn distinct(names: Seq<String>) -> bool {
    forall|i: int, j: int| 0 <= i < j < names.len() ==> (#[trigger] names[i])@ != (#[trigger] names[j])@
}

/// The map that takes each of `names` to the value at the same index.
pub open spec fn map_of<V>(names: Seq<String>, values: Seq<V>) -> Map<Seq<char>, V> {
    Map::new(|key: Seq<char>| named(names, key), |key: Seq<char>| values[index_of(names, key)])
}

/// Replacing the value at one index replaces what its name maps to.
pub proof fn lemma_map_of_update<V>(names: Seq<String>, values: Seq<V>, i: int, value: V)
    requires
        distinct(names),
        names.len() == values.len(),
        0 <= i < names.len(),
    ensures
        map_of(names, values.update(i, value)) == map_of(names, values).insert(names[i]@, value),
        map_of(names, values).contains_key(names[i]@),
        map_of(names, values)[names[i]@] == values[i],
{
    assert(named(names, names[i]@));
    assert(forall|name: Seq<char>| named(names, name) && name != names[i]@ ==> index_of(names, name) != i);
    assert(map_of(names, values.update(i, value)) =~= map_of(names, values).insert(names[i]@, value));
}

/// Adding a new name with its value adds the pair to the map.
pub proof fn lemma_map_of_push<V>(names: Seq<String>, values: Seq<V>, name: String, value: V)
    requires
        distinct(names),
        names.len() == values.len(),
        !named(names, name@),
    ensures
        distinct(names.push(name)),
        map_of(names.push(name), values.push(value)) == map_of(names, values).insert(name@, value),
{
    let after = names.push(name);
    assert forall|key: Seq<char>| named(after, key) implies (key == name@ || named(names, key))
        && index_of(after, key) == (if key == name@ {
        names.len() as int
    } else {
        index_of(names, key)
    }) by {
        let i = index_of(after, key);
        if i < names.len() {
            assert(names[i]@ == key);
            let j = index_of(names, key);
            assert(after[j]@ == key);
        }
    }
    assert forall|key: Seq<char>| named(names, key) implies named(after, key) by {
        let j = index_of(names, key);
        assert(after[j]@ == key);
    }
    assert(after[names.len() as int]@ == name@);
    assert(map_of(after, values.push(value)) =~= map_of(names, values).insert(name@, value));
}

/// The index of `key` among `names`.
pub fn position(names: &Vec<String>, key: &str) -> (found: Option<usize>)
    ensures
        match found {
            Some(i) => i < names@.len() && names@[i as int]@ == key@,
            None => !named(names@, key@),
        },
{
    let wanted = key.to_owned();
    let mut i: usize = 0;
    while i < names.len()
        invariant
            i <= names@.len(),
            wanted@ == key@,
            forall|j: int| 0 <= j < i ==> (#[trigger] names@[j])@ != key@,
        decreases names.len() - i,
    {
        if names[i] == wanted {
            return Some(i);
        }
        i += 1;
    }
    None
}

/// Values under string paths. A path is an opaque name: no path is part of
/// another. A value may be replaced by one of another type.
#[derive(Debug)]
pub struct State {
    names: Vec<String>,
    values: Vec<Value>,
}

impl View for State {
    type V = Map<Seq<char>, Value>;

    closed spec fn view(&self) -> Map<Seq<char>, Value> {
        map_of(self.names@, self.values@)
    }
}

impl State {
    #[verifier::type_invariant]
    spec fn paired(&self) -> bool {
        &&& self.names@.len() == self.values@.len()
        &&& distinct(self.names@)
    }

    /// What the store holds, path by path.
    pub open spec fn model(&self) -> Model {
        model_of(self@)
    }

    /// The index of `key` among the names.
    fn find(&self, key: &str) -> (found: Option<usize>)
        ensures
            match found {
                Some(i) => i < self.names@.len() && self.names@[i as int]@ == key@,
                None => !named(self.names@, key@),
            },
    {
        position(&self.names, key)
    }

    /// Writes `value` under `key`, in place of what was there.
    pub fn set(&mut self, key: &str, value: Value)
        ensures
            final(self)@ == old(self)@.insert(key@, value),
            final(self).model() == old(self).model().insert(key@, value@),
    {
        proof {
            use_type_invariant(&*self);
            lemma_model_insert(self@, key@, value);
        }
        match self.find(key) {
            Some(i) => {
                proof {
                    lemma_map_of_update(self.names@, self.values@, i as int, value);
                }
                self.values[i] = value;
            },
            None => {
                let mut taken = State::default();
                core::mem::swap(self, &mut taken);
                let State { mut names, mut values } = taken;
                let name = key.to_owned();
                proof {
                    lemma_map_of_push(names@, values@, name, value);
                }
                names.push(name);
                values.push(value);
                *self = State { names, values };
            },
        }
    }

    /// Reads the value of type `T` under `key`. The read fails where nothing
    /// was written under `key`, and in another way where what was written
    /// there is not a `T`.
    pub fn get<T: Stored>(&self, key: &str) -> (result: Result<&T, StoreError>)
        ensures
            match result {
                Ok(held) => lookup::<T>(self@, key@) == Ok::<T, Fault>(*held) && self@[key@]
                    == (*held).stored(),
                Err(error) => lookup::<T>(self@, key@) == Err::<T, Fault>(error.fault())
                    && error.path() == key@,
            },
    {
        proof {
            use_type_invariant(self);
            if self@.contains_key(key@) && T::holds(self@[key@]) {
                T::lemma_held(self@[key@]);
            }
        }
        match self.find(key) {
            Some(i) => {
                proof {
                    lemma_map_of_update(self.names@, self.values@, i as int, self.values@[i as int]);
                }
                match T::pick(&self.values[i]) {
                    Some(held) => Ok(held),
                    None => Err(StoreError::InvalidType(key.to_owned())),
                }
            },
            None => Err(StoreError::NotFound(key.to_owned())),
        }
    }

    /// Reads the value of type `T` under `key` to change it in place. What the
    /// caller leaves in it is what the store holds afterwards. A failed read
    /// changes nothing.
    pub fn get_mut<T: Stored>(&mut self, key: &str) -> (result: Result<&mut T, StoreError>)
        ensures
            match result {
                Ok(held) => {
                    &&& lookup::<T>(old(self)@, key@) == Ok::<T, Fault>(*held)
                    &&& final(self)@ == old(self)@.insert(key@, (*final(held)).stored())
                    &&& final(self).model() == old(self).model().insert(
                        key@,
                        (*final(held)).stored()@,
                    )
                },
                Err(error) => {
                    &&& lookup::<T>(old(self)@, key@) == Err::<T, Fault>(error.fault())
                    &&& error.path() == key@
                    &&& final(self)@ == old(self)@
                },
            },
    {
        proof {
            use_type_invariant(&*self);
        }
        match self.find(key) {
            Some(i) => {
                proof {
                    let names = self.names@;
                    let values = self.values@;
                    assert forall|value: Value|
                        map_of(names, #[trigger] values.update(i as int, value)) == map_of(
                            names,
                            values,
                        ).insert(key@, value) && model_of(
                            map_of(names, values).insert(key@, value),
                        ) == model_of(map_of(names, values)).insert(key@, value@) by {
                        lemma_map_of_update(names, values, i as int, value);
                        lemma_model_insert(map_of(names, values), key@, value);
                    }
                    lemma_map_of_update(names, values, i as int, values[i as int]);
                }
                if T::pick(&self.values[i]).is_some() {
                    match T::pick_mut(&mut self.values[i]) {
                        Some(held) => Ok(held),
                        None => Err(StoreError::InvalidType(key.to_owned())),
                    }
                } else {
                    Err(StoreError::InvalidType(key.to_owned()))
                }
            },
            None => Err(StoreError::NotFound(key.to_owned())),
        }
    }

    /// Reads the value of type `T` under `key` for a reader that can do
    /// without it: where the read fails, for whichever reason, the reader
    /// gets `default`.
    pub fn get_or<'a, T: Stored>(&'a self, key: &str, default: &'a T) -> (held: &'a T)
        ensures
            *held == match lookup::<T>(self@, key@) {
                Ok(value) => value,
                Err(_) => *default,
            },
    {
        match self.get::<T>(key) {
            Ok(held) => held,
            Err(_) => default,
        }
    }

    /// Whether something was written under `key`.
    pub fn contains(&self, key: &str) -> (found: bool)
        ensures
            found == self@.contains_key(key@),
    {
        proof {
            use_type_invariant(self);
        }
        match self.find(key) {
            Some(i) => {
                proof {
                    lemma_map_of_update(self.names@, self.values@, i as int, self.values@[i as int]);
                }
                true
            },
            None => false,
        }
    }
}

impl Default for State {
    /// The store that holds nothing.
    fn default() -> (state: State)
        ensures
            state@ == Map::<Seq<char>, Value>::empty(),
    {
        let state = State { names: Vec::new(), values: Vec::new() };
        assert(state@ =~= Map::<Seq<char>, Value>::empty());
        state
    }
}

/// A write changes what the store holds under the path written, and nothing
/// else.
pub proof fn lemma_model_insert(store: Map<Seq<char>, Value>, key: Seq<char>, value: Value)
    ensures
        model_of(store.insert(key, value)) == model_of(store).insert(key, value@),
{
    assert(model_of(store.insert(key, value)) =~= model_of(store).insert(key, value@));
}

/// What is under `key`, for a reader that cannot do without it.
pub open spec fn value_at(model: Model, key: Seq<char>) -> Result<ValueView, Failure> {
    if model.contains_key(key) {
        Ok(model[key])
    } else {
        Err(Failure::Store(Fault::NotFound, key))
    }
}

/// The truth value under `key`.
pub open spec fn flag_at(model: Model, key: Seq<char>) -> Result<bool, Failure> {
    match value_at(model, key) {
        Ok(ValueView::Bool(flag)) => Ok(flag),
        Ok(_) => Err(Failure::Store(Fault::InvalidType, key)),
        Err(failure) => Err(failure),
    }
}

/// The index under `key`.
pub open spec fn index_at(model: Model, key: Seq<char>) -> Result<usize, Failure> {
    match value_at(model, key) {
        Ok(ValueView::Index(index)) => Ok(index),
        Ok(_) => Err(Failure::Store(Fault::InvalidType, key)),
        Err(failure) => Err(failure),
    }
}

/// The text under `key`.
pub open spec fn text_at(model: Model, key: Seq<char>) -> Result<Seq<char>, Failure> {
    match value_at(model, key) {
        Ok(ValueView::Text(text)) => Ok(text),
        Ok(_) => Err(Failure::Store(Fault::InvalidType, key)),
        Err(failure) => Err(failure),
    }
}

/// The list of texts under `key`.
pub open spec fn list_at(model: Model, key: Seq<char>) -> Result<Seq<Seq<char>>, Failure> {
    match value_at(model, key) {
        Ok(ValueView::List(list)) => Ok(list),
        Ok(_) => Err(Failure::Store(Fault::InvalidType, key)),
        Err(failure) => Err(failure),
    }
}

/// The mode under `key`.
pub open spec fn mode_at(model: Model, key: Seq<char>) -> Result<Mode, Failure> {
    match value_at(model, key) {
        Ok(ValueView::Mode(mode)) => Ok(mode),
        Ok(_) => Err(Failure::Store(Fault::InvalidType, key)),
        Err(failure) => Err(failure),
    }
}

/// The editor under `key`.
pub open spec fn editor_at(model: Model, key: Seq<char>) -> Result<EditorView, Failure> {
    match value_at(model, key) {
        Ok(ValueView::Editor(editor)) => Ok(editor),
        Ok(_) => Err(Failure::Store(Fault::InvalidType, key)),
        Err(failure) => Err(failure),
    }
}

/// The issues under `key`.
pub open spec fn issues_at(model: Model, key: Seq<char>) -> Result<
    Seq<(Seq<char>, IssueView)>,
    Failure,
> {
    match value_at(model, key) {
        Ok(ValueView::Issues(issues)) => Ok(issues),
        Ok(_) => Err(Failure::Store(Fault::InvalidType, key)),
        Err(failure) => Err(failure),
    }
}

/// The call under `key`.
pub open spec fn call_at(model: Model, key: Seq<char>) -> Result<Option<InternalCall>, Failure> {
    match value_at(model, key) {
        Ok(ValueView::Call(call)) => Ok(call),
        Ok(_) => Err(Failure::Store(Fault::InvalidType, key)),
        Err(failure) => Err(failure),
    }
}

/// Reads the value of type `T` under `key` for a caller that cannot do
/// without it: a failed read becomes the caller's failure.
pub fn require<'a, T: Stored>(state: &'a State, key: &str) -> (result: Result<&'a T, Error>)
    ensures
        match result {
            Ok(held) => {
                &&& lookup::<T>(state@, key@) == Ok::<T, Fault>(*held)
                &&& state.model().contains_key(key@)
                &&& state.model()[key@] == (*held).stored()@
            },
            Err(error) => {
                &&& lookup::<T>(state@, key@) is Err
                &&& error.failure() == Failure::Store(lookup::<T>(state@, key@)->Err_0, key@)
                &&& lookup::<T>(state@, key@)->Err_0 == Fault::NotFound ==> !state.model().contains_key(
                    key@,
                )
                &&& lookup::<T>(state@, key@)->Err_0 == Fault::InvalidType ==> state.model().contains_key(
                    key@,
                ) && !T::holds(state@[key@]) && state.model()[key@] == state@[key@]@
            },
        },
{
    match state.get::<T>(key) {
        Ok(held) => Ok(held),
        Err(error) => Err(Error::Store(error)),
    }
}

/// A read right after a write of a `T` under the same path gives what was
/// written.
pub proof fn lemma_get_after_set<T: Stored>(store: Map<Seq<char>, Value>, key: Seq<char>, written: T)
    ensures
        lookup::<T>(store.insert(key, written.stored()), key) == Ok::<T, Fault>(written),
{
    written.lemma_stored();
}

/// A read of a path that was never written finds nothing: the empty store
/// holds no path, a write under another path adds none but its own, and a
/// read of a path that the store does not hold reports it as not found.
pub proof fn lemma_get_unwritten<T: Stored>(
    store: Map<Seq<char>, Value>,
    key: Seq<char>,
    other: Seq<char>,
    written: Value,
)
    ensures
        !Map::<Seq<char>, Value>::empty().contains_key(key),
        !store.contains_key(key) && other != key ==> !store.insert(other, written).contains_key(key),
        !store.contains_key(key) ==> lookup::<T>(store, key) == Err::<T, Fault>(Fault::NotFound),
{
}

/// A read of a path under which a value of another type was written reports
/// the type, and gives no value.
pub proof fn lemma_get_other_type<T: Stored>(store: Map<Seq<char>, Value>, key: Seq<char>, written: Value)
    requires
        !T::holds(written),
    ensures
        lookup::<T>(store.insert(key, written), key) == Err::<T, Fault>(Fault::InvalidType),
{
}

/// A write under one path leaves what is read under another as it was.
pub proof fn lemma_get_after_other_set<T: Stored>(
    store: Map<Seq<char>, Value>,
    key: Seq<char>,
    other: Seq<char>,
    written: Value,
)
    requires
        key != other,
    ensures
        lookup::<T>(store.insert(other, written), key) == lookup::<T>(store, key),
{
}

} // verus!
