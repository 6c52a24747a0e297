//! The rich messages ("embeds") that the bot posts, as plain values.

use vstd::prelude::*;

verus! {

/// One named field of an embed.
#[derive(Clone, Debug, PartialEq, Eq)]
pub struct EmbedField {
    pub name: String,
    pub value: String,
    pub inline: bool,
}

impl View for EmbedField {
    type V = (Seq<char>, Seq<char>, bool);

    open spec fn view(&self) -> (Seq<char>, Seq<char>, bool) {
        (self.name@, self.value@, self.inline)
    }
}

/// An embed: what the chat client shows as a card.
#[derive(Clone, Debug, PartialEq, Eq)]
pub struct Embed {
    pub author: Option<String>,
    pub title: Option<String>,
    pub color: Option<u32>,
    pub fields: Vec<EmbedField>,
    pub thumbnail: Option<String>,
    pub url: Option<String>,
}

/// An embed with its texts taken as character sequences.
pub struct EmbedView {
    pub author: Option<Seq<char>>,
    pub title: Option<Seq<char>>,
    pub color: Option<u32>,
    pub fields: Seq<(Seq<char>, Seq<char>, bool)>,
    pub thumbnail: Option<Seq<char>>,
    pub url: Option<Seq<char>>,
}

/// The characters of an optional text.
pub open spec fn opt_text(o: Option<String>) -> Option<Seq<char>> {
    match o {
        Some(s) => Some(s@),
        None => None,
    }
}

/// The characters of each field, in order.
pub open spec fn fields_view(fields: Seq<EmbedField>) -> Seq<(Seq<char>, Seq<char>, bool)> {
    fields.map_values(|f: EmbedField| f@)
}

impl View for Embed {
    type V = EmbedView;

    open spec fn view(&self) -> EmbedView {
        EmbedView {
            author: opt_text(self.author),
            title: opt_text(self.title),
            color: self.color,
            fields: fields_view(self.fields@),
            thumbnail: opt_text(self.thumbnail),
            url: opt_text(self.url),
        }
    }
}

/// The embed with nothing set.
pub open spec fn empty_embed() -> EmbedView {
    EmbedView {
        author: None,
        title: None,
        color: None,
        fields: Seq::empty(),
        thumbnail: None,
        url: None,
    }
}

impl Embed {
    /// An embed with nothing set.
    pub fn new() -> (e: Embed)
        ensures
            e@ == empty_embed(),
    {
        let e = Embed {
            author: None,
            title: None,
            color: None,
            fields: Vec::new(),
            thumbnail: None,
            url: None,
        };
        assert(fields_view(e.fields@) =~= Seq::empty());
        e
    }

    /// Appends a field after those already there.
    pub fn push_field(&mut self, name: String, value: String, inline: bool)
        ensures
            final(self)@ == (EmbedView {
                fields: old(self)@.fields.push((name@, value@, inline)),
                ..old(self)@
            }),
    {
        let ghost before = self.fields@;
        self.fields.push(EmbedField { name, value, inline });
        assert(fields_view(self.fields@) =~= fields_view(before).push((name@, value@, inline)));
    }
}

} // verus!
