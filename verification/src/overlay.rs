//! State of the decorative corner overlay: the decoded image, its credit,
//! whether a fetch is in flight, and the last failure.
//!
//! The decoded image itself (`A`) is produced and drawn outside this library.
//! When the source API supplies an artist name it is credited: these are
//! working illustrators' drawings.
use vstd::prelude::*;

use crate::text::{concat_str, opt_string_text};

verus! {

/// The corner overlay's state.
pub struct Overlay<A> {
    /// The decoded image shown, if any.
    pub animation: Option<A>,
    /// The artist credited for the image, if the source named one.
    pub artist: Option<String>,
    /// The site the image came from, once one has been shown.
    pub source_site: Option<String>,
    /// Set while a fetch is in flight, so the button can show progress and no
    /// pile of concurrent requests is queued.
    pub loading: bool,
    /// Last failure, surfaced in settings rather than silently doing nothing.
    pub last_error: Option<String>,
}

/// The credit line for a site and an optional artist.
pub open spec fn spec_credit(artist: Option<Seq<char>>, site: Seq<char>) -> Seq<char> {
    match artist {
        Some(a) => "Art by "@ + a + " \u{2014} via "@ + site,
        None => "via "@ + site,
    }
}

impl<A> Overlay<A> {
    /// The decoded image shown, if any.
    pub open spec fn spec_animation(&self) -> Option<A> {
        self.animation
    }

    /// The artist credited for the image, if the source named one.
    pub open spec fn spec_artist(&self) -> Option<Seq<char>> {
        opt_string_text(self.artist)
    }

    /// The site the image came from, once one has been shown.
    pub open spec fn spec_source_site(&self) -> Option<Seq<char>> {
        opt_string_text(self.source_site)
    }

    /// Whether a fetch is in flight.
    pub open spec fn spec_loading(&self) -> bool {
        self.loading
    }

    /// The last failure's message, if any.
    pub open spec fn spec_last_error(&self) -> Option<Seq<char>> {
        opt_string_text(self.last_error)
    }

    /// No image, no credit, no fetch in flight, no error.
    pub fn new() -> (o: Self)
        ensures
            o.spec_animation() is None,
            o.spec_artist() is None,
            o.spec_source_site() is None,
            !o.spec_loading(),
            o.spec_last_error() is None,
    {
        Overlay { animation: None, artist: None, source_site: None, loading: false, last_error: None }
    }

    /// Take the result of decoding freshly downloaded bytes. A decoded image
    /// replaces the current one with its credit and clears the last error; a
    /// decoding failure keeps the current image and records the failure.
    /// Either way the fetch is over.
    pub fn set_image(&mut self, decoded: Result<A, String>, artist: Option<String>, source_site: String)
        ensures
            !final(self).spec_loading(),
            decoded matches Ok(anim) ==> {
                &&& final(self).spec_animation() == Some(anim)
                &&& final(self).spec_artist() == opt_string_text(artist)
                &&& final(self).spec_source_site() == Some(source_site@)
                &&& final(self).spec_last_error() is None
            },
            decoded matches Err(e) ==> {
                &&& final(self).spec_animation() == old(self).spec_animation()
                &&& final(self).spec_artist() == old(self).spec_artist()
                &&& final(self).spec_source_site() == old(self).spec_source_site()
                &&& final(self).spec_last_error() == Some("Could not decode the image: "@ + e@)
            },
    {
        match decoded {
            Ok(anim) => {
                self.animation = Some(anim);
                self.artist = artist;
                self.source_site = Some(source_site);
                self.last_error = None;
            },
            Err(e) => {
                self.last_error = Some(concat_str("Could not decode the image: ", e.as_str()));
            },
        }
        self.loading = false;
    }

    /// Record that the fetch failed; the current image stays.
    pub fn fail(&mut self, message: String)
        ensures
            final(self).spec_animation() == old(self).spec_animation(),
            final(self).spec_artist() == old(self).spec_artist(),
            final(self).spec_source_site() == old(self).spec_source_site(),
            final(self).spec_last_error() == Some(message@),
            !final(self).spec_loading(),
    {
        self.last_error = Some(message);
        self.loading = false;
    }

    /// Remove the image, its credit and any error; a fetch in flight stays in
    /// flight.
    pub fn clear(&mut self)
        ensures
            final(self).spec_animation() is None,
            final(self).spec_artist() is None,
            final(self).spec_source_site() is None,
            final(self).spec_last_error() is None,
            final(self).spec_loading() == old(self).spec_loading(),
    {
        self.animation = None;
        self.artist = None;
        self.source_site = None;
        self.last_error = None;
    }

    /// The decoded image, for advancing and drawing it in place.
    pub fn animation_mut(&mut self) -> (r: Option<&mut A>)
        ensures
            r is Some <==> old(self).spec_animation() is Some,
            r is None ==> final(self).spec_animation() is None,
            r matches Some(a) ==> Some(*a) == old(self).spec_animation() && final(self).spec_animation()
                == Some(*final(a)),
            final(self).spec_artist() == old(self).spec_artist(),
            final(self).spec_source_site() == old(self).spec_source_site(),
            final(self).spec_loading() == old(self).spec_loading(),
            final(self).spec_last_error() == old(self).spec_last_error(),
    {
        self.animation.as_mut()
    }

    pub fn has_image(&self) -> (b: bool)
        ensures
            b == self.spec_animation() is Some,
    {
        self.animation.is_some()
    }

    /// Credit line for the settings panel, if the source gave one:
    /// `"Art by <artist> — via <site>"`, or `"via <site>"` without an artist.
    pub fn credit(&self) -> (c: Option<String>)
        ensures
            self.spec_source_site() is None ==> c is None,
            self.spec_source_site() matches Some(site) ==> (c matches Some(text) && text@ == spec_credit(
                self.spec_artist(),
                site,
            )),
    {
        let site = match &self.source_site {
            Some(s) => s.as_str(),
            None => return None,
        };
        match &self.artist {
            Some(artist) => {
                let a = concat_str("Art by ", artist.as_str());
                let b = concat_str(a.as_str(), " \u{2014} via ");
                Some(concat_str(b.as_str(), site))
            },
            None => Some(concat_str("via ", site)),
        }
    }
}

impl<A> Default for Overlay<A> {
    fn default() -> (o: Self)
        ensures
            o.spec_animation() is None,
            o.spec_artist() is None,
            o.spec_source_site() is None,
            !o.spec_loading(),
            o.spec_last_error() is None,
    {
        Overlay::new()
    }
}

} // verus!
