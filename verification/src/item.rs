//! The item model: an item's numeric id and its typed, partially
//! optional components, plus the minimal rich-text component produced
//! by display-name translation.

use vstd::prelude::*;
use crate::json;
use crate::json_model::{json_of, spec_string_member, Json};
use crate::strings::str_eq;

verus! {

/// How an attribute modifier combines with the attribute's base value.
#[derive(Clone, Copy, Debug, PartialEq, Eq, Structural)]
pub enum Operation {
    AddValue,
    AddMultipliedBase,
    AddMultipliedTotal,
}

impl Operation {
    /// The operation that `name` denotes in a source document.
    pub open spec fn spec_from_name(name: Seq<char>) -> Option<Operation> {
        if name == "add_value"@ {
            Some(Operation::AddValue)
        } else if name == "add_multiplied_base"@ {
            Some(Operation::AddMultipliedBase)
        } else if name == "add_multiplied_total"@ {
            Some(Operation::AddMultipliedTotal)
        } else {
            None
        }
    }

    /// Reads an operation from its source-document spelling; `None` for
    /// any other text.
    pub fn from_name(name: &str) -> (r: Option<Operation>)
        ensures
            r == Self::spec_from_name(name@),
    {
        if str_eq(name, "add_value") {
            Some(Operation::AddValue)
        } else if str_eq(name, "add_multiplied_base") {
            Some(Operation::AddMultipliedBase)
        } else if str_eq(name, "add_multiplied_total") {
            Some(Operation::AddMultipliedTotal)
        } else {
            None
        }
    }
}

/// A record describing how an item alters a named gameplay attribute.
#[derive(Clone, Debug)]
pub struct Modifier {
    /// The attribute category the modifier applies to.
    pub kind: String,
    /// The modifier's own identifier.
    pub id: String,
    /// The modifier amount, held as the bit pattern of its 64-bit
    /// floating-point source value; the registry itself never computes
    /// with it.
    pub amount_bits: u64,
    pub operation: Operation,
    /// The equipment slot the modifier is bound to; unconstrained text.
    pub slot: String,
}

/// The attribute modifiers attached to an item.
#[derive(Clone, Debug)]
pub struct AttributeModifiers {
    pub modifiers: Vec<Modifier>,
}

/// The song reference of an item that is playable in a jukebox.
#[derive(Clone, Debug)]
pub struct JukeboxPlayable {
    pub song: String,
}

/// The optional and required components attached to an item.
#[derive(Clone, Debug)]
pub struct ItemComponents {
    /// A serialized rich-text payload, parsed on demand by
    /// `Item::translated_name`, never at load time.
    pub item_name: String,
    /// The largest quantity one inventory slot holds.
    pub max_stack_size: u8,
    pub jukebox_playable: Option<JukeboxPlayable>,
    pub damage: Option<u16>,
    pub max_damage: Option<u16>,
    pub attribute_modifiers: Option<AttributeModifiers>,
}

/// One distinct item type of the registry.
#[derive(Clone, Debug)]
pub struct Item {
    pub id: u16,
    pub components: ItemComponents,
}

/// The mathematical value of a modifier record: its strings as
/// character sequences, the rest as it stands.
pub ghost struct ModifierModel {
    pub kind: Seq<char>,
    pub id: Seq<char>,
    pub amount_bits: u64,
    pub operation: Operation,
    pub slot: Seq<char>,
}

impl View for Modifier {
    type V = ModifierModel;

    open spec fn view(&self) -> ModifierModel {
        ModifierModel {
            kind: self.kind@,
            id: self.id@,
            amount_bits: self.amount_bits,
            operation: self.operation,
            slot: self.slot@,
        }
    }
}

/// The values of a list of modifier records.
pub open spec fn modifiers_view(ms: Seq<Modifier>) -> Seq<ModifierModel> {
    ms.map_values(|m: Modifier| m@)
}

/// The mathematical value of an item's components; the two one-field
/// wrappers collapse to the song and the modifier list they hold.
pub ghost struct ComponentsModel {
    pub item_name: Seq<char>,
    pub max_stack_size: u8,
    pub jukebox_song: Option<Seq<char>>,
    pub damage: Option<u16>,
    pub max_damage: Option<u16>,
    pub modifiers: Option<Seq<ModifierModel>>,
}

impl View for ItemComponents {
    type V = ComponentsModel;

    open spec fn view(&self) -> ComponentsModel {
        ComponentsModel {
            item_name: self.item_name@,
            max_stack_size: self.max_stack_size,
            jukebox_song: match self.jukebox_playable {
                Some(j) => Some(j.song@),
                None => None,
            },
            damage: self.damage,
            max_damage: self.max_damage,
            modifiers: match self.attribute_modifiers {
                Some(a) => Some(modifiers_view(a.modifiers@)),
                None => None,
            },
        }
    }
}

/// The mathematical value of an item.
pub ghost struct ItemModel {
    pub id: u16,
    pub components: ComponentsModel,
}

impl View for Item {
    type V = ItemModel;

    open spec fn view(&self) -> ItemModel {
        ItemModel { id: self.id, components: self.components@ }
    }
}

/// A minimal rich-text component: plain text, a translation key, or
/// both absent when the payload carries neither.
#[derive(Clone, Debug)]
pub struct TextComponent {
    pub text: Option<String>,
    pub translate: Option<String>,
}

/// The mathematical value of a rich-text component.
pub ghost struct TextComponentModel {
    pub text: Option<Seq<char>>,
    pub translate: Option<Seq<char>>,
}

impl View for TextComponent {
    type V = TextComponentModel;

    open spec fn view(&self) -> TextComponentModel {
        TextComponentModel {
            text: match self.text {
                Some(t) => Some(t@),
                None => None,
            },
            translate: match self.translate {
                Some(t) => Some(t@),
                None => None,
            },
        }
    }
}

/// The component a serialized display-name payload denotes: a bare
/// JSON string is plain text, an object contributes its `"text"` and
/// `"translate"` members. `None` for any other payload, for an
/// unparsable one, and for an object whose `"text"` or `"translate"`
/// member is present but not a string.
pub open spec fn spec_component_of(payload: Seq<char>) -> Option<TextComponentModel> {
    match json_of(payload) {
        Some(j) => match j {
            Json::Str(t) => Some(TextComponentModel { text: Some(t), translate: None }),
            Json::Obj(_) => match (spec_string_member(j, "text"@), spec_string_member(
                j,
                "translate"@,
            )) {
                (Some(Some(t)), Some(Some(tr))) => Some(
                    TextComponentModel { text: Some(t), translate: Some(tr) },
                ),
                (Some(Some(t)), None) => Some(
                    TextComponentModel { text: Some(t), translate: None },
                ),
                (None, Some(Some(tr))) => Some(
                    TextComponentModel { text: None, translate: Some(tr) },
                ),
                (None, None) => Some(TextComponentModel { text: None, translate: None }),
                _ => None,
            },
            _ => None,
        },
        None => None,
    }
}

impl Item {
    /// Parses the serialized display-name payload held in `item_name`
    /// into a rich-text component: either a bare JSON string, or an
    /// object whose `"text"` and `"translate"` members are read.
    ///
    /// The result is exactly `spec_component_of` of the stored payload
    /// string — a pure function of it, so equal payloads always give
    /// equal components. `None` marks a malformed payload, a corrupt
    /// build-time asset: the caller treats it as fatal, never as a
    /// default component.
    pub fn translated_name(&self) -> (r: Option<TextComponent>)
        ensures
            match r {
                Some(tc) => spec_component_of(self.components.item_name@) == Some(tc@),
                None => spec_component_of(self.components.item_name@) is None,
            },
    {
        let payload = match json::parse_value(self.components.item_name.as_str()) {
            Some(v) => v,
            None => {
                return None;
            },
        };
        if let Some(plain) = json::value_as_str(&payload) {
            return Some(TextComponent { text: Some(plain.to_owned()), translate: None });
        }
        if !json::value_is_object(&payload) {
            return None;
        }
        let text = match json::value_get(&payload, "text") {
            Some(member) => match json::value_as_str(member) {
                Some(s) => Some(s.to_owned()),
                None => {
                    return None;
                },
            },
            None => None,
        };
        let translate = match json::value_get(&payload, "translate") {
            Some(member) => match json::value_as_str(member) {
                Some(s) => Some(s.to_owned()),
                None => {
                    return None;
                },
            },
            None => None,
        };
        Some(TextComponent { text, translate })
    }
}

} // verus!
