use vstd::prelude::*;

use crate::catalog::{
    categories_of, category_views, copy_categories, copy_voices, decode_categories, decode_voices,
    select_voices, voice_views, voices_in_category, voices_of, Category, CategoryView, Voice,
    VoiceView,
};
use crate::error::Error;
use crate::json::JsonValue;

verus! {

/// An authenticated client: the HTTP session that carries the login cookie,
/// and a snapshot of the service's categories and voices.
pub struct FakeYouClient {
    session: reqwest::blocking::Client,
    category_cache: Vec<Category>,
    voice_cache: Vec<Voice>,
    cache_generated: i64,
}

impl FakeYouClient {
    /// The cached voices.
    pub closed spec fn voices(&self) -> Seq<VoiceView> {
        voice_views(self.voice_cache@)
    }

    /// The cached categories.
    pub closed spec fn categories(&self) -> Seq<CategoryView> {
        category_views(self.category_cache@)
    }

    /// The HTTP session of this client.
    pub closed spec fn http(&self) -> reqwest::blocking::Client {
        self.session
    }

    /// When the cache was last filled, in milliseconds since the Unix epoch.
    pub closed spec fn generated_at(&self) -> i64 {
        self.cache_generated
    }

    /// A client over an authenticated `session`, with its cache filled from
    /// a category listing and a voice listing at the time `now` (in
    /// milliseconds since the Unix epoch). No client is made when either
    /// listing is malformed.
    pub fn new(
        session: reqwest::blocking::Client,
        categories_doc: &JsonValue,
        voices_doc: &JsonValue,
        now: i64,
    ) -> (r: Result<FakeYouClient, Error>)
        ensures
            r is Ok <==> categories_of(*categories_doc) is Some && voices_of(*voices_doc) is Some,
            r matches Ok(c) ==> c.categories() == categories_of(*categories_doc).unwrap()
                && c.voices() == voices_of(*voices_doc).unwrap() && c.http() == session
                && c.generated_at() == now,
            r is Err ==> r == Err::<FakeYouClient, Error>(Error::ImproperResponse),
    {
        let category_cache = decode_categories(categories_doc)?;
        let voice_cache = decode_voices(voices_doc)?;
        Ok(FakeYouClient { session, category_cache, voice_cache, cache_generated: now })
    }

    /// The HTTP session of this client.
    pub fn session(&self) -> (r: &reqwest::blocking::Client)
        ensures
            *r == self.http(),
    {
        &self.session
    }

    /// When the cache was last filled, in milliseconds since the Unix epoch.
    pub fn cache_generated(&self) -> (r: i64)
        ensures
            r == self.generated_at(),
    {
        self.cache_generated
    }

    /// A copy of all cached voices.
    pub fn list_voices(&self) -> (r: Vec<Voice>)
        ensures
            voice_views(r@) == self.voices(),
    {
        copy_voices(&self.voice_cache)
    }

    /// A copy of all cached categories.
    pub fn list_categories(&self) -> (r: Vec<Category>)
        ensures
            category_views(r@) == self.categories(),
    {
        copy_categories(&self.category_cache)
    }

    /// Copies of the cached voices that belong to `category`.
    pub fn list_voices_by_category(&self, category: &Category) -> (r: Vec<Voice>)
        ensures
            voice_views(r@) == voices_in_category(self.voices(), category@.category_token),
    {
        self.list_voices_by_category_token(category.category_token.as_str())
    }

    /// Copies of the cached voices that belong to the category `category_token`.
    pub fn list_voices_by_category_token(&self, category_token: &str) -> (r: Vec<Voice>)
        ensures
            voice_views(r@) == voices_in_category(self.voices(), category_token@),
    {
        select_voices(&self.voice_cache, category_token)
    }

    /// Replaces the cache with the categories and voices of the two
    /// listings, read at the time `now` (in milliseconds since the Unix
    /// epoch). When either listing is malformed the cache is left as it was.
    pub fn invalidate_cache(
        &mut self,
        categories_doc: &JsonValue,
        voices_doc: &JsonValue,
        now: i64,
    ) -> (r: Result<(), Error>)
        ensures
            r is Ok <==> categories_of(*categories_doc) is Some && voices_of(*voices_doc) is Some,
            r is Ok ==> final(self).categories() == categories_of(*categories_doc).unwrap()
                && final(self).voices() == voices_of(*voices_doc).unwrap()
                && final(self).generated_at() == now,
            final(self).http() == old(self).http(),
            r is Err ==> r == Err::<(), Error>(Error::ImproperResponse) && final(self).categories()
                == old(self).categories() && final(self).voices() == old(self).voices()
                && final(self).generated_at() == old(self).generated_at(),
    {
        let categories = decode_categories(categories_doc)?;
        let voices = decode_voices(voices_doc)?;
        self.category_cache = categories;
        self.voice_cache = voices;
        self.cache_generated = now;
        Ok(())
    }
}

} // verus!
