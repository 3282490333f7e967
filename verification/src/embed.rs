//! Messages as the bot composes them: a box with a colour, a title, a description, a list
//! of named fields and a footer.

use vstd::prelude::*;
use vstd::string::*;

verus! {

/// The colours of the bot's messages.
#[derive(Debug, Clone, Copy, PartialEq, Eq, Structural)]
pub enum Color {
    Red,
    Green,
    Blue,
}

/// A named field of a message, with its texts as sequences of characters.
pub struct FieldView {
    pub name: Seq<char>,
    pub value: Seq<char>,
    pub inline: bool,
}

/// A named field of a message.
#[derive(Debug)]
pub struct EmbedField {
    pub name: String,
    pub value: String,
    pub inline: bool,
}

impl View for EmbedField {
    type V = FieldView;

    open spec fn view(&self) -> FieldView {
        FieldView { name: self.name@, value: self.value@, inline: self.inline }
    }
}

/// A message, with its texts as sequences of characters.
pub struct EmbedView {
    pub color: Option<Color>,
    pub title: Option<Seq<char>>,
    pub description: Option<Seq<char>>,
    pub fields: Seq<FieldView>,
    pub footer: Option<Seq<char>>,
    pub ephemeral: bool,
}

/// A message. `ephemeral` says that only the user who gave the command is to see it.
#[derive(Debug)]
pub struct Embed {
    pub color: Option<Color>,
    pub title: Option<String>,
    pub description: Option<String>,
    pub fields: Vec<EmbedField>,
    pub footer: Option<String>,
    pub ephemeral: bool,
}

/// The views of a sequence of fields, in the same order.
pub open spec fn field_views(fields: Seq<EmbedField>) -> Seq<FieldView> {
    fields.map_values(|f: EmbedField| f@)
}

impl View for Embed {
    type V = EmbedView;

    open spec fn view(&self) -> EmbedView {
        EmbedView {
            color: self.color,
            title: crate::types::opt_chars(self.title),
            description: crate::types::opt_chars(self.description),
            fields: field_views(self.fields@),
            footer: crate::types::opt_chars(self.footer),
            ephemeral: self.ephemeral,
        }
    }
}

/// The message that holds nothing.
pub open spec fn blank() -> EmbedView {
    EmbedView {
        color: None,
        title: None,
        description: None,
        fields: Seq::empty(),
        footer: None,
        ephemeral: false,
    }
}

impl Embed {
    /// A message that holds nothing.
    pub fn new() -> (embed: Embed)
        ensures
            embed@ == blank(),
    {
        let embed = Embed {
            color: None,
            title: None,
            description: None,
            fields: Vec::new(),
            footer: None,
            ephemeral: false,
        };
        assert(embed@.fields =~= Seq::<FieldView>::empty());
        embed
    }

    /// The message in this colour.
    pub fn color(self, color: Color) -> (embed: Embed)
        ensures
            embed@ == (EmbedView { color: Some(color), ..self@ }),
    {
        Embed { color: Some(color), ..self }
    }

    /// The message under this title.
    pub fn title(self, title: String) -> (embed: Embed)
        ensures
            embed@ == (EmbedView { title: Some(title@), ..self@ }),
    {
        Embed { title: Some(title), ..self }
    }

    /// The message with this description.
    pub fn description(self, description: String) -> (embed: Embed)
        ensures
            embed@ == (EmbedView { description: Some(description@), ..self@ }),
    {
        Embed { description: Some(description), ..self }
    }

    /// The message with this footer.
    pub fn footer(self, footer: String) -> (embed: Embed)
        ensures
            embed@ == (EmbedView { footer: Some(footer@), ..self@ }),
    {
        Embed { footer: Some(footer), ..self }
    }

    /// The message, shown to the user of the command alone or to everyone.
    pub fn ephemeral(self, ephemeral: bool) -> (embed: Embed)
        ensures
            embed@ == (EmbedView { ephemeral, ..self@ }),
    {
        Embed { ephemeral, ..self }
    }

    /// The message with one field more, after those that it has.
    pub fn field(self, name: String, value: String, inline: bool) -> (embed: Embed)
        ensures
            embed@ == (EmbedView {
                fields: self@.fields.push(FieldView { name: name@, value: value@, inline }),
                ..self@
            }),
    {
        let mut embed = self;
        embed.fields.push(EmbedField { name, value, inline });
        assert(embed@.fields =~= self@.fields.push(
            FieldView { name: name@, value: value@, inline },
        ));
        embed
    }

    /// The message with a field for the reason, if a reason is given.
    pub fn reason(self, reason: Option<&str>) -> (embed: Embed)
        ensures
            embed@ == with_reason(self@, crate::database::opt_str_chars(reason)),
    {
        match reason {
            Some(text) => self.field(String::from_str("Reason:"), String::from_str(text), false),
            None => self,
        }
    }
}

/// A message with a field for the reason, if a reason is given.
pub open spec fn with_reason(embed: EmbedView, reason: Option<Seq<char>>) -> EmbedView {
    match reason {
        Some(text) => EmbedView {
            fields: embed.fields.push(
                FieldView { name: "Reason:"@, value: text, inline: false },
            ),
            ..embed
        },
        None => embed,
    }
}

} // verus!
