use vstd::prelude::*;

use crate::error::Error;
use crate::json::{field_of, str_of, str_eq, JsonValue};

verus! {

/// A voice that speech can be generated with.
#[derive(Clone, Debug)]
pub struct Voice {
    pub title: String,
    pub model_token: String,
    pub category_tokens: Vec<String>,
}

/// A category that groups voices.
#[derive(Clone, Debug)]
pub struct Category {
    pub title: String,
    pub category_token: String,
    pub model_type: String,
}

/// What a [`Voice`] holds, as mathematical values.
pub ghost struct VoiceView {
    pub title: Seq<char>,
    pub model_token: Seq<char>,
    pub category_tokens: Seq<Seq<char>>,
}

/// What a [`Category`] holds, as mathematical values.
pub ghost struct CategoryView {
    pub title: Seq<char>,
    pub category_token: Seq<char>,
    pub model_type: Seq<char>,
}

impl View for Voice {
    type V = VoiceView;

    open spec fn view(&self) -> VoiceView {
        VoiceView {
            title: self.title@,
            model_token: self.model_token@,
            category_tokens: self.category_tokens@.map_values(|t: String| t@),
        }
    }
}

impl View for Category {
    type V = CategoryView;

    open spec fn view(&self) -> CategoryView {
        CategoryView {
            title: self.title@,
            category_token: self.category_token@,
            model_type: self.model_type@,
        }
    }
}

/// The views of a list of voices.
pub open spec fn voice_views(vs: Seq<Voice>) -> Seq<VoiceView> {
    vs.map_values(|v: Voice| v@)
}

/// The views of a list of categories.
pub open spec fn category_views(cs: Seq<Category>) -> Seq<CategoryView> {
    cs.map_values(|c: Category| c@)
}

/// The category described by one entry of the category listing: it needs
/// the string members `name`, `category_token` and `model_type`.
pub open spec fn category_entry(v: JsonValue) -> Option<CategoryView> {
    match (
        str_of(field_of(v, "name"@)),
        str_of(field_of(v, "category_token"@)),
        str_of(field_of(v, "model_type"@)),
    ) {
        (Some(t), Some(c), Some(m)) => Some(CategoryView { title: t, category_token: c, model_type: m }),
        _ => None,
    }
}

/// The texts of a JSON array whose items are all strings.
pub open spec fn string_list(v: Option<JsonValue>) -> Option<Seq<Seq<char>>> {
    match v {
        Some(JsonValue::Array(items)) => {
            if forall|i: int| 0 <= i < items@.len() ==> (#[trigger] str_of(Some(items@[i]))) is Some {
                Some(items@.map_values(|x: JsonValue| str_of(Some(x)).unwrap()))
            } else {
                None
            }
        },
        _ => None,
    }
}

/// The voice described by one entry of the voice listing: it needs the
/// string members `title` and `model_token`, and `category_tokens`, an
/// array of strings.
pub open spec fn voice_entry(v: JsonValue) -> Option<VoiceView> {
    match (
        str_of(field_of(v, "title"@)),
        str_of(field_of(v, "model_token"@)),
        string_list(field_of(v, "category_tokens"@)),
    ) {
        (Some(t), Some(m), Some(cs)) => Some(VoiceView { title: t, model_token: m, category_tokens: cs }),
        _ => None,
    }
}

/// The categories of a category listing, `{"categories": [...]}`, when
/// every entry is well formed.
pub open spec fn categories_of(doc: JsonValue) -> Option<Seq<CategoryView>> {
    match field_of(doc, "categories"@) {
        Some(JsonValue::Array(items)) => {
            if forall|i: int| 0 <= i < items@.len() ==> (#[trigger] category_entry(items@[i])) is Some {
                Some(items@.map_values(|x: JsonValue| category_entry(x).unwrap()))
            } else {
                None
            }
        },
        _ => None,
    }
}

/// The voices of a voice listing, `{"models": [...]}`, when every entry is
/// well formed.
pub open spec fn voices_of(doc: JsonValue) -> Option<Seq<VoiceView>> {
    match field_of(doc, "models"@) {
        Some(JsonValue::Array(items)) => {
            if forall|i: int| 0 <= i < items@.len() ==> (#[trigger] voice_entry(items@[i])) is Some {
                Some(items@.map_values(|x: JsonValue| voice_entry(x).unwrap()))
            } else {
                None
            }
        },
        _ => None,
    }
}

/// Whether a voice belongs to the category `token`.
pub open spec fn belongs_to(token: Seq<char>) -> spec_fn(VoiceView) -> bool {
    |v: VoiceView| v.category_tokens.contains(token)
}

/// The voices among `vs` that belong to the category `token`, in order.
pub open spec fn voices_in_category(vs: Seq<VoiceView>, token: Seq<char>) -> Seq<VoiceView> {
    vs.filter(belongs_to(token))
}

/// A copy of a list of strings.
fn copy_strings(v: &Vec<String>) -> (r: Vec<String>)
    ensures
        r@ == v@,
{
    let mut out: Vec<String> = Vec::new();
    let mut i: usize = 0;
    while i < v.len()
        invariant
            i <= v@.len(),
            out@ == v@.subrange(0, i as int),
        decreases v@.len() - i,
    {
        out.push(v[i].clone());
        i = i + 1;
    }
    assert(out@ =~= v@);
    out
}

impl Voice {
    /// A copy of this voice.
    pub fn duplicate(&self) -> (r: Voice)
        ensures
            r@ == self@,
    {
        Voice {
            title: self.title.clone(),
            model_token: self.model_token.clone(),
            category_tokens: copy_strings(&self.category_tokens),
        }
    }

    /// Whether this voice belongs to the category `token`.
    pub fn in_category(&self, token: &str) -> (r: bool)
        ensures
            r == self@.category_tokens.contains(token@),
    {
        let mut i: usize = 0;
        while i < self.category_tokens.len()
            invariant
                i <= self.category_tokens@.len(),
                forall|j: int| 0 <= j < i ==> self.category_tokens@[j]@ != token@,
            decreases self.category_tokens@.len() - i,
        {
            if str_eq(self.category_tokens[i].as_str(), token) {
                assert(self@.category_tokens[i as int] == token@);
                return true;
            }
            i = i + 1;
        }
        assert forall|j: int| 0 <= j < self@.category_tokens.len() implies self@.category_tokens[j]
            != token@ by {
            assert(self@.category_tokens[j] == self.category_tokens@[j]@);
        }
        false
    }
}

impl Category {
    /// A copy of this category.
    pub fn duplicate(&self) -> (r: Category)
        ensures
            r@ == self@,
    {
        Category {
            title: self.title.clone(),
            category_token: self.category_token.clone(),
            model_type: self.model_type.clone(),
        }
    }
}

/// A copy of a list of voices.
pub fn copy_voices(vs: &Vec<Voice>) -> (r: Vec<Voice>)
    ensures
        voice_views(r@) == voice_views(vs@),
{
    let mut out: Vec<Voice> = Vec::new();
    let mut i: usize = 0;
    while i < vs.len()
        invariant
            i <= vs@.len(),
            out@.len() == i,
            forall|j: int| 0 <= j < i ==> (#[trigger] out@[j])@ == vs@[j]@,
        decreases vs@.len() - i,
    {
        out.push(vs[i].duplicate());
        i = i + 1;
    }
    assert(voice_views(out@) =~= voice_views(vs@));
    out
}

/// A copy of a list of categories.
pub fn copy_categories(cs: &Vec<Category>) -> (r: Vec<Category>)
    ensures
        category_views(r@) == category_views(cs@),
{
    let mut out: Vec<Category> = Vec::new();
    let mut i: usize = 0;
    while i < cs.len()
        invariant
            i <= cs@.len(),
            out@.len() == i,
            forall|j: int| 0 <= j < i ==> (#[trigger] out@[j])@ == cs@[j]@,
        decreases cs@.len() - i,
    {
        out.push(cs[i].duplicate());
        i = i + 1;
    }
    assert(category_views(out@) =~= category_views(cs@));
    out
}

/// Copies of the voices among `vs` that belong to the category `token`.
pub fn select_voices(vs: &Vec<Voice>, token: &str) -> (r: Vec<Voice>)
    ensures
        voice_views(r@) == voices_in_category(voice_views(vs@), token@),
{
    let mut out: Vec<Voice> = Vec::new();
    let mut i: usize = 0;
    while i < vs.len()
        invariant
            i <= vs@.len(),
            voice_views(out@) == voices_in_category(voice_views(vs@.subrange(0, i as int)), token@),
        decreases vs@.len() - i,
    {
        let ghost before = voice_views(vs@.subrange(0, i as int));
        let ghost after = voice_views(vs@.subrange(0, i + 1));
        assert(after.drop_last() =~= before);
        reveal(Seq::filter);
        if vs[i].in_category(token) {
            out.push(vs[i].duplicate());
        }
        i = i + 1;
        assert(voice_views(out@) =~= voices_in_category(after, token@));
    }
    assert(vs@.subrange(0, vs@.len() as int) =~= vs@);
    out
}

/// The category described by one entry of the category listing.
pub fn decode_category(v: &JsonValue) -> (r: Result<Category, Error>)
    ensures
        r matches Ok(c) ==> category_entry(*v) == Some(c@),
        r is Err ==> category_entry(*v) is None && r == Err::<Category, Error>(Error::ImproperResponse),
        category_entry(*v) is None ==> r is Err,
{
    let title = v.text_field("name");
    let category_token = v.text_field("category_token");
    let model_type = v.text_field("model_type");
    match (title, category_token, model_type) {
        (Some(title), Some(category_token), Some(model_type)) => {
            Ok(Category { title, category_token, model_type })
        },
        _ => Err(Error::ImproperResponse),
    }
}

/// The texts of a JSON array whose items are all strings.
pub fn decode_string_list(v: &JsonValue) -> (r: Result<Vec<String>, Error>)
    ensures
        r matches Ok(ts) ==> string_list(Some(*v)) == Some(
            ts@.map_values(|t: String| t@),
        ),
        r is Err ==> string_list(Some(*v)) is None && r == Err::<
            Vec<String>,
            Error,
        >(Error::ImproperResponse),
        string_list(Some(*v)) is None ==> r is Err,
{
    match v {
        JsonValue::Array(items) => {
            let mut out: Vec<String> = Vec::new();
            let mut i: usize = 0;
            while i < items.len()
                invariant
                    *v == JsonValue::Array(*items),
                    i <= items@.len(),
                    out@.len() == i,
                    forall|j: int|
                        0 <= j < i ==> str_of(Some(#[trigger] items@[j])) == Some(out@[j]@),
                decreases items@.len() - i,
            {
                match &items[i] {
                    JsonValue::Str(t) => out.push(t.clone()),
                    _ => {
                        assert(str_of(Some(items@[i as int])) is None);
                        return Err(Error::ImproperResponse);
                    },
                }
                i = i + 1;
            }
            assert(out@.map_values(|t: String| t@) =~= items@.map_values(
                |x: JsonValue| str_of(Some(x)).unwrap(),
            ));
            Ok(out)
        },
        _ => Err(Error::ImproperResponse),
    }
}

/// The voice described by one entry of the voice listing.
pub fn decode_voice(v: &JsonValue) -> (r: Result<Voice, Error>)
    ensures
        r matches Ok(x) ==> voice_entry(*v) == Some(x@),
        r is Err ==> voice_entry(*v) is None && r == Err::<Voice, Error>(Error::ImproperResponse),
        voice_entry(*v) is None ==> r is Err,
{
    let category_tokens = match v.field("category_tokens") {
        Some(list) => decode_string_list(list),
        None => Err(Error::ImproperResponse),
    };
    let title = v.text_field("title");
    let model_token = v.text_field("model_token");
    match (title, model_token, category_tokens) {
        (Some(title), Some(model_token), Ok(category_tokens)) => {
            Ok(Voice { title, model_token, category_tokens })
        },
        _ => Err(Error::ImproperResponse),
    }
}

/// The categories of a category listing; any malformed entry fails the
/// whole listing.
pub fn decode_categories(doc: &JsonValue) -> (r: Result<Vec<Category>, Error>)
    ensures
        r matches Ok(cs) ==> categories_of(*doc) == Some(category_views(cs@)),
        r is Err ==> categories_of(*doc) is None && r == Err::<Vec<Category>, Error>(
            Error::ImproperResponse,
        ),
        categories_of(*doc) is None ==> r is Err,
{
    match doc.field("categories") {
        Some(JsonValue::Array(items)) => {
            let mut out: Vec<Category> = Vec::new();
            let mut i: usize = 0;
            while i < items.len()
                invariant
                    field_of(*doc, "categories"@) == Some(JsonValue::Array(*items)),
                    i <= items@.len(),
                    out@.len() == i,
                    forall|j: int|
                        0 <= j < i ==> category_entry(#[trigger] items@[j]) == Some(out@[j]@),
                decreases items@.len() - i,
            {
                match decode_category(&items[i]) {
                    Ok(c) => out.push(c),
                    Err(e) => {
                        assert(category_entry(items@[i as int]) is None);
                        return Err(e);
                    },
                }
                i = i + 1;
            }
            assert(category_views(out@) =~= items@.map_values(
                |x: JsonValue| category_entry(x).unwrap(),
            ));
            Ok(out)
        },
        _ => Err(Error::ImproperResponse),
    }
}

/// The voices of a voice listing; any malformed entry fails the whole
/// listing.
pub fn decode_voices(doc: &JsonValue) -> (r: Result<Vec<Voice>, Error>)
    ensures
        r matches Ok(vs) ==> voices_of(*doc) == Some(voice_views(vs@)),
        r is Err ==> voices_of(*doc) is None && r == Err::<Vec<Voice>, Error>(
            Error::ImproperResponse,
        ),
        voices_of(*doc) is None ==> r is Err,
{
    match doc.field("models") {
        Some(JsonValue::Array(items)) => {
            let mut out: Vec<Voice> = Vec::new();
            let mut i: usize = 0;
            while i < items.len()
                invariant
                    field_of(*doc, "models"@) == Some(JsonValue::Array(*items)),
                    i <= items@.len(),
                    out@.len() == i,
                    forall|j: int| 0 <= j < i ==> voice_entry(#[trigger] items@[j]) == Some(out@[j]@),
                decreases items@.len() - i,
            {
                match decode_voice(&items[i]) {
                    Ok(x) => out.push(x),
                    Err(e) => {
                        assert(voice_entry(items@[i as int]) is None);
                        return Err(e);
                    },
                }
                i = i + 1;
            }
            assert(voice_views(out@) =~= items@.map_values(|x: JsonValue| voice_entry(x).unwrap()));
            Ok(out)
        },
        _ => Err(Error::ImproperResponse),
    }
}

} // verus!
