//! The closed set of record variants and how each one is routed.

use crate::error::Error;
use crate::text::chars_match;
use crate::text::to_chars;
use vstd::prelude::*;

verus! {

/// The variant of a record: one per category of game data.
#[derive(Clone, Copy, Debug, PartialEq, Eq, Hash, Structural)]
pub enum RecordKind {
    Header,
    GameSetting,
    GlobalVariable,
    Class,
    Faction,
    Race,
    Sound,
    SoundGen,
    Skill,
    MagicEffect,
    Script,
    Region,
    Birthsign,
    StartScript,
    LandscapeTexture,
    Spell,
    Static,
    Door,
    MiscItem,
    Weapon,
    Container,
    Creature,
    Bodypart,
    Light,
    Enchanting,
    Npc,
    Armor,
    Clothing,
    RepairItem,
    Activator,
    Apparatus,
    Lockpick,
    Probe,
    Ingredient,
    Book,
    Alchemy,
    LeveledItem,
    LeveledCreature,
    Cell,
    Landscape,
    PathGrid,
    Dialogue,
    DialogueInfo,
}

/// What the dump does with a record of a given variant.
#[derive(Clone, Copy, Debug, PartialEq, Eq, Structural)]
pub enum Routing {
    /// The one record that opens a container; it is written under a fixed name.
    Header,
    /// A variant that is left out of the dump on purpose.
    Unsupported,
    /// A variant written to the folder of its type, under its identifier.
    Supported,
}

impl RecordKind {
    /// The four-letter type tag of the variant.
    pub open spec fn spec_tag(self) -> Seq<char> {
        match self {
            RecordKind::Header => "TES3"@,
            RecordKind::GameSetting => "GMST"@,
            RecordKind::GlobalVariable => "GLOB"@,
            RecordKind::Class => "CLAS"@,
            RecordKind::Faction => "FACT"@,
            RecordKind::Race => "RACE"@,
            RecordKind::Sound => "SOUN"@,
            RecordKind::SoundGen => "SNDG"@,
            RecordKind::Skill => "SKIL"@,
            RecordKind::MagicEffect => "MGEF"@,
            RecordKind::Script => "SCPT"@,
            RecordKind::Region => "REGN"@,
            RecordKind::Birthsign => "BSGN"@,
            RecordKind::StartScript => "SSCR"@,
            RecordKind::LandscapeTexture => "LTEX"@,
            RecordKind::Spell => "SPEL"@,
            RecordKind::Static => "STAT"@,
            RecordKind::Door => "DOOR"@,
            RecordKind::MiscItem => "MISC"@,
            RecordKind::Weapon => "WEAP"@,
            RecordKind::Container => "CONT"@,
            RecordKind::Creature => "CREA"@,
            RecordKind::Bodypart => "BODY"@,
            RecordKind::Light => "LIGH"@,
            RecordKind::Enchanting => "ENCH"@,
            RecordKind::Npc => "NPC_"@,
            RecordKind::Armor => "ARMO"@,
            RecordKind::Clothing => "CLOT"@,
            RecordKind::RepairItem => "REPA"@,
            RecordKind::Activator => "ACTI"@,
            RecordKind::Apparatus => "APPA"@,
            RecordKind::Lockpick => "LOCK"@,
            RecordKind::Probe => "PROB"@,
            RecordKind::Ingredient => "INGR"@,
            RecordKind::Book => "BOOK"@,
            RecordKind::Alchemy => "ALCH"@,
            RecordKind::LeveledItem => "LEVI"@,
            RecordKind::LeveledCreature => "LEVC"@,
            RecordKind::Cell => "CELL"@,
            RecordKind::Landscape => "LAND"@,
            RecordKind::PathGrid => "PGRD"@,
            RecordKind::Dialogue => "DIAL"@,
            RecordKind::DialogueInfo => "INFO"@,
        }
    }

    /// The name of the variant, which is also the name of its folder.
    pub open spec fn spec_name(self) -> Seq<char> {
        match self {
            RecordKind::Header => "Header"@,
            RecordKind::GameSetting => "GameSetting"@,
            RecordKind::GlobalVariable => "GlobalVariable"@,
            RecordKind::Class => "Class"@,
            RecordKind::Faction => "Faction"@,
            RecordKind::Race => "Race"@,
            RecordKind::Sound => "Sound"@,
            RecordKind::SoundGen => "SoundGen"@,
            RecordKind::Skill => "Skill"@,
            RecordKind::MagicEffect => "MagicEffect"@,
            RecordKind::Script => "Script"@,
            RecordKind::Region => "Region"@,
            RecordKind::Birthsign => "Birthsign"@,
            RecordKind::StartScript => "StartScript"@,
            RecordKind::LandscapeTexture => "LandscapeTexture"@,
            RecordKind::Spell => "Spell"@,
            RecordKind::Static => "Static"@,
            RecordKind::Door => "Door"@,
            RecordKind::MiscItem => "MiscItem"@,
            RecordKind::Weapon => "Weapon"@,
            RecordKind::Container => "Container"@,
            RecordKind::Creature => "Creature"@,
            RecordKind::Bodypart => "Bodypart"@,
            RecordKind::Light => "Light"@,
            RecordKind::Enchanting => "Enchanting"@,
            RecordKind::Npc => "Npc"@,
            RecordKind::Armor => "Armor"@,
            RecordKind::Clothing => "Clothing"@,
            RecordKind::RepairItem => "RepairItem"@,
            RecordKind::Activator => "Activator"@,
            RecordKind::Apparatus => "Apparatus"@,
            RecordKind::Lockpick => "Lockpick"@,
            RecordKind::Probe => "Probe"@,
            RecordKind::Ingredient => "Ingredient"@,
            RecordKind::Book => "Book"@,
            RecordKind::Alchemy => "Alchemy"@,
            RecordKind::LeveledItem => "LeveledItem"@,
            RecordKind::LeveledCreature => "LeveledCreature"@,
            RecordKind::Cell => "Cell"@,
            RecordKind::Landscape => "Landscape"@,
            RecordKind::PathGrid => "PathGrid"@,
            RecordKind::Dialogue => "Dialogue"@,
            RecordKind::DialogueInfo => "DialogueInfo"@,
        }
    }

    /// The routing decision for the variant.
    pub open spec fn spec_routing(self) -> Routing {
        match self {
            RecordKind::Header => Routing::Header,
            RecordKind::Landscape | RecordKind::PathGrid => Routing::Unsupported,
            _ => Routing::Supported,
        }
    }

    /// Whether records of the variant carry a plain-text body besides their attributes.
    pub open spec fn spec_has_text_body(self) -> bool {
        self == RecordKind::Script
    }

    /// The four-letter type tag of the variant.
    pub fn tag(&self) -> (r: &'static str)
        ensures
            r@ == self.spec_tag(),
    {
        match self {
            RecordKind::Header => "TES3",
            RecordKind::GameSetting => "GMST",
            RecordKind::GlobalVariable => "GLOB",
            RecordKind::Class => "CLAS",
            RecordKind::Faction => "FACT",
            RecordKind::Race => "RACE",
            RecordKind::Sound => "SOUN",
            RecordKind::SoundGen => "SNDG",
            RecordKind::Skill => "SKIL",
            RecordKind::MagicEffect => "MGEF",
            RecordKind::Script => "SCPT",
            RecordKind::Region => "REGN",
            RecordKind::Birthsign => "BSGN",
            RecordKind::StartScript => "SSCR",
            RecordKind::LandscapeTexture => "LTEX",
            RecordKind::Spell => "SPEL",
            RecordKind::Static => "STAT",
            RecordKind::Door => "DOOR",
            RecordKind::MiscItem => "MISC",
            RecordKind::Weapon => "WEAP",
            RecordKind::Container => "CONT",
            RecordKind::Creature => "CREA",
            RecordKind::Bodypart => "BODY",
            RecordKind::Light => "LIGH",
            RecordKind::Enchanting => "ENCH",
            RecordKind::Npc => "NPC_",
            RecordKind::Armor => "ARMO",
            RecordKind::Clothing => "CLOT",
            RecordKind::RepairItem => "REPA",
            RecordKind::Activator => "ACTI",
            RecordKind::Apparatus => "APPA",
            RecordKind::Lockpick => "LOCK",
            RecordKind::Probe => "PROB",
            RecordKind::Ingredient => "INGR",
            RecordKind::Book => "BOOK",
            RecordKind::Alchemy => "ALCH",
            RecordKind::LeveledItem => "LEVI",
            RecordKind::LeveledCreature => "LEVC",
            RecordKind::Cell => "CELL",
            RecordKind::Landscape => "LAND",
            RecordKind::PathGrid => "PGRD",
            RecordKind::Dialogue => "DIAL",
            RecordKind::DialogueInfo => "INFO",
        }
    }

    /// The name of the variant, which is also the name of its folder.
    pub fn name(&self) -> (r: &'static str)
        ensures
            r@ == self.spec_name(),
    {
        match self {
            RecordKind::Header => "Header",
            RecordKind::GameSetting => "GameSetting",
            RecordKind::GlobalVariable => "GlobalVariable",
            RecordKind::Class => "Class",
            RecordKind::Faction => "Faction",
            RecordKind::Race => "Race",
            RecordKind::Sound => "Sound",
            RecordKind::SoundGen => "SoundGen",
            RecordKind::Skill => "Skill",
            RecordKind::MagicEffect => "MagicEffect",
            RecordKind::Script => "Script",
            RecordKind::Region => "Region",
            RecordKind::Birthsign => "Birthsign",
            RecordKind::StartScript => "StartScript",
            RecordKind::LandscapeTexture => "LandscapeTexture",
            RecordKind::Spell => "Spell",
            RecordKind::Static => "Static",
            RecordKind::Door => "Door",
            RecordKind::MiscItem => "MiscItem",
            RecordKind::Weapon => "Weapon",
            RecordKind::Container => "Container",
            RecordKind::Creature => "Creature",
            RecordKind::Bodypart => "Bodypart",
            RecordKind::Light => "Light",
            RecordKind::Enchanting => "Enchanting",
            RecordKind::Npc => "Npc",
            RecordKind::Armor => "Armor",
            RecordKind::Clothing => "Clothing",
            RecordKind::RepairItem => "RepairItem",
            RecordKind::Activator => "Activator",
            RecordKind::Apparatus => "Apparatus",
            RecordKind::Lockpick => "Lockpick",
            RecordKind::Probe => "Probe",
            RecordKind::Ingredient => "Ingredient",
            RecordKind::Book => "Book",
            RecordKind::Alchemy => "Alchemy",
            RecordKind::LeveledItem => "LeveledItem",
            RecordKind::LeveledCreature => "LeveledCreature",
            RecordKind::Cell => "Cell",
            RecordKind::Landscape => "Landscape",
            RecordKind::PathGrid => "PathGrid",
            RecordKind::Dialogue => "Dialogue",
            RecordKind::DialogueInfo => "DialogueInfo",
        }
    }

    /// The routing decision for the variant.
    pub fn routing(&self) -> (r: Routing)
        ensures
            r == self.spec_routing(),
    {
        match self {
            RecordKind::Header => Routing::Header,
            RecordKind::Landscape | RecordKind::PathGrid => Routing::Unsupported,
            _ => Routing::Supported,
        }
    }

    /// Whether records of the variant carry a plain-text body besides their attributes.
    pub fn has_text_body(&self) -> (r: bool)
        ensures
            r == self.spec_has_text_body(),
    {
        matches!(self, RecordKind::Script)
    }

    /// The variant that carries `tag`, if there is one.
    pub open spec fn spec_from_tag(tag: Seq<char>) -> Option<RecordKind> {
        if exists|k: RecordKind| k.spec_tag() == tag {
            Some(choose|k: RecordKind| k.spec_tag() == tag)
        } else {
            None
        }
    }

    /// The variant that carries `tag`; none where the tag belongs to no variant.
    pub fn from_tag(tag: &str) -> (r: Option<RecordKind>)
        ensures
            r == RecordKind::spec_from_tag(tag@),
            match r {
                Some(k) => k.spec_tag() == tag@,
                None => forall|k: RecordKind| k.spec_tag() != tag@,
            },
    {
        let r = RecordKind::find_tag(tag);
        proof {
            match r {
                Some(k) => {
                    lemma_tag_injective(k, RecordKind::spec_from_tag(tag@)->Some_0);
                },
                None => {},
            }
        }
        r
    }

    fn find_tag(tag: &str) -> (r: Option<RecordKind>)
        ensures
            match r {
                Some(k) => k.spec_tag() == tag@,
                None => forall|k: RecordKind| k.spec_tag() != tag@,
            },
    {
        let t = to_chars(tag);
        if chars_match(&t, "TES3") {
            return Some(RecordKind::Header);
        }
        if chars_match(&t, "GMST") {
            return Some(RecordKind::GameSetting);
        }
        if chars_match(&t, "GLOB") {
            return Some(RecordKind::GlobalVariable);
        }
        if chars_match(&t, "CLAS") {
            return Some(RecordKind::Class);
        }
        if chars_match(&t, "FACT") {
            return Some(RecordKind::Faction);
        }
        if chars_match(&t, "RACE") {
            return Some(RecordKind::Race);
        }
        if chars_match(&t, "SOUN") {
            return Some(RecordKind::Sound);
        }
        if chars_match(&t, "SNDG") {
            return Some(RecordKind::SoundGen);
        }
        if chars_match(&t, "SKIL") {
            return Some(RecordKind::Skill);
        }
        if chars_match(&t, "MGEF") {
            return Some(RecordKind::MagicEffect);
        }
        if chars_match(&t, "SCPT") {
            return Some(RecordKind::Script);
        }
        if chars_match(&t, "REGN") {
            return Some(RecordKind::Region);
        }
        if chars_match(&t, "BSGN") {
            return Some(RecordKind::Birthsign);
        }
        if chars_match(&t, "SSCR") {
            return Some(RecordKind::StartScript);
        }
        if chars_match(&t, "LTEX") {
            return Some(RecordKind::LandscapeTexture);
        }
        if chars_match(&t, "SPEL") {
            return Some(RecordKind::Spell);
        }
        if chars_match(&t, "STAT") {
            return Some(RecordKind::Static);
        }
        if chars_match(&t, "DOOR") {
            return Some(RecordKind::Door);
        }
        if chars_match(&t, "MISC") {
            return Some(RecordKind::MiscItem);
        }
        if chars_match(&t, "WEAP") {
            return Some(RecordKind::Weapon);
        }
        if chars_match(&t, "CONT") {
            return Some(RecordKind::Container);
        }
        if chars_match(&t, "CREA") {
            return Some(RecordKind::Creature);
        }
        if chars_match(&t, "BODY") {
            return Some(RecordKind::Bodypart);
        }
        if chars_match(&t, "LIGH") {
            return Some(RecordKind::Light);
        }
        if chars_match(&t, "ENCH") {
            return Some(RecordKind::Enchanting);
        }
        if chars_match(&t, "NPC_") {
            return Some(RecordKind::Npc);
        }
        if chars_match(&t, "ARMO") {
            return Some(RecordKind::Armor);
        }
        if chars_match(&t, "CLOT") {
            return Some(RecordKind::Clothing);
        }
        if chars_match(&t, "REPA") {
            return Some(RecordKind::RepairItem);
        }
        if chars_match(&t, "ACTI") {
            return Some(RecordKind::Activator);
        }
        if chars_match(&t, "APPA") {
            return Some(RecordKind::Apparatus);
        }
        if chars_match(&t, "LOCK") {
            return Some(RecordKind::Lockpick);
        }
        if chars_match(&t, "PROB") {
            return Some(RecordKind::Probe);
        }
        if chars_match(&t, "INGR") {
            return Some(RecordKind::Ingredient);
        }
        if chars_match(&t, "BOOK") {
            return Some(RecordKind::Book);
        }
        if chars_match(&t, "ALCH") {
            return Some(RecordKind::Alchemy);
        }
        if chars_match(&t, "LEVI") {
            return Some(RecordKind::LeveledItem);
        }
        if chars_match(&t, "LEVC") {
            return Some(RecordKind::LeveledCreature);
        }
        if chars_match(&t, "CELL") {
            return Some(RecordKind::Cell);
        }
        if chars_match(&t, "LAND") {
            return Some(RecordKind::Landscape);
        }
        if chars_match(&t, "PGRD") {
            return Some(RecordKind::PathGrid);
        }
        if chars_match(&t, "DIAL") {
            return Some(RecordKind::Dialogue);
        }
        if chars_match(&t, "INFO") {
            return Some(RecordKind::DialogueInfo);
        }
        None
    }
}

/// Every variant has exactly one routing decision: the header is the only one routed as
/// header, the landscape and the path grid are the only unsupported ones, and every
/// other variant is supported.
pub proof fn lemma_routing_exhaustive(k: RecordKind)
    ensures
        k.spec_routing() == Routing::Header <==> k == RecordKind::Header,
        k.spec_routing() == Routing::Unsupported <==> (k == RecordKind::Landscape || k
            == RecordKind::PathGrid),
        k.spec_routing() == Routing::Supported <==> !(k == RecordKind::Header || k
            == RecordKind::Landscape || k == RecordKind::PathGrid),
        k.spec_has_text_body() ==> k.spec_routing() == Routing::Supported,
{
}

/// Reading a variant's own type tag gives the variant back.
pub proof fn lemma_from_tag_inverts(k: RecordKind)
    ensures
        RecordKind::spec_from_tag(k.spec_tag()) == Some(k),
{
    lemma_tag_injective(k, RecordKind::spec_from_tag(k.spec_tag())->Some_0);
}

/// No two variants share a type tag.
pub proof fn lemma_tag_injective(a: RecordKind, b: RecordKind)
    requires
        a.spec_tag() == b.spec_tag(),
    ensures
        a == b,
{
    lemma_tag_letters(a);
    lemma_tag_letters(b);
    let s = a.spec_tag();
    assert(letters(a) == (s[0], s[1], s[2], s[3]));
    assert(letters(b) == (s[0], s[1], s[2], s[3]));
}

/// The four letters of a variant's type tag.
pub open spec fn letters(k: RecordKind) -> (char, char, char, char) {
    match k {
        RecordKind::Header => ('T', 'E', 'S', '3'),
        RecordKind::GameSetting => ('G', 'M', 'S', 'T'),
        RecordKind::GlobalVariable => ('G', 'L', 'O', 'B'),
        RecordKind::Class => ('C', 'L', 'A', 'S'),
        RecordKind::Faction => ('F', 'A', 'C', 'T'),
        RecordKind::Race => ('R', 'A', 'C', 'E'),
        RecordKind::Sound => ('S', 'O', 'U', 'N'),
        RecordKind::SoundGen => ('S', 'N', 'D', 'G'),
        RecordKind::Skill => ('S', 'K', 'I', 'L'),
        RecordKind::MagicEffect => ('M', 'G', 'E', 'F'),
        RecordKind::Script => ('S', 'C', 'P', 'T'),
        RecordKind::Region => ('R', 'E', 'G', 'N'),
        RecordKind::Birthsign => ('B', 'S', 'G', 'N'),
        RecordKind::StartScript => ('S', 'S', 'C', 'R'),
        RecordKind::LandscapeTexture => ('L', 'T', 'E', 'X'),
        RecordKind::Spell => ('S', 'P', 'E', 'L'),
        RecordKind::Static => ('S', 'T', 'A', 'T'),
        RecordKind::Door => ('D', 'O', 'O', 'R'),
        RecordKind::MiscItem => ('M', 'I', 'S', 'C'),
        RecordKind::Weapon => ('W', 'E', 'A', 'P'),
        RecordKind::Container => ('C', 'O', 'N', 'T'),
        RecordKind::Creature => ('C', 'R', 'E', 'A'),
        RecordKind::Bodypart => ('B', 'O', 'D', 'Y'),
        RecordKind::Light => ('L', 'I', 'G', 'H'),
        RecordKind::Enchanting => ('E', 'N', 'C', 'H'),
        RecordKind::Npc => ('N', 'P', 'C', '_'),
        RecordKind::Armor => ('A', 'R', 'M', 'O'),
        RecordKind::Clothing => ('C', 'L', 'O', 'T'),
        RecordKind::RepairItem => ('R', 'E', 'P', 'A'),
        RecordKind::Activator => ('A', 'C', 'T', 'I'),
        RecordKind::Apparatus => ('A', 'P', 'P', 'A'),
        RecordKind::Lockpick => ('L', 'O', 'C', 'K'),
        RecordKind::Probe => ('P', 'R', 'O', 'B'),
        RecordKind::Ingredient => ('I', 'N', 'G', 'R'),
        RecordKind::Book => ('B', 'O', 'O', 'K'),
        RecordKind::Alchemy => ('A', 'L', 'C', 'H'),
        RecordKind::LeveledItem => ('L', 'E', 'V', 'I'),
        RecordKind::LeveledCreature => ('L', 'E', 'V', 'C'),
        RecordKind::Cell => ('C', 'E', 'L', 'L'),
        RecordKind::Landscape => ('L', 'A', 'N', 'D'),
        RecordKind::PathGrid => ('P', 'G', 'R', 'D'),
        RecordKind::Dialogue => ('D', 'I', 'A', 'L'),
        RecordKind::DialogueInfo => ('I', 'N', 'F', 'O'),
    }
}

/// A type tag is made of the four letters listed for its variant.
pub proof fn lemma_tag_letters(k: RecordKind)
    ensures
        k.spec_tag() == seq![letters(k).0, letters(k).1, letters(k).2, letters(k).3],
{
    match k {
        RecordKind::Header => {
            reveal_strlit("TES3");
        },
        RecordKind::GameSetting => {
            reveal_strlit("GMST");
        },
        RecordKind::GlobalVariable => {
            reveal_strlit("GLOB");
        },
        RecordKind::Class => {
            reveal_strlit("CLAS");
        },
        RecordKind::Faction => {
            reveal_strlit("FACT");
        },
        RecordKind::Race => {
            reveal_strlit("RACE");
        },
        RecordKind::Sound => {
            reveal_strlit("SOUN");
        },
        RecordKind::SoundGen => {
            reveal_strlit("SNDG");
        },
        RecordKind::Skill => {
            reveal_strlit("SKIL");
        },
        RecordKind::MagicEffect => {
            reveal_strlit("MGEF");
        },
        RecordKind::Script => {
            reveal_strlit("SCPT");
        },
        RecordKind::Region => {
            reveal_strlit("REGN");
        },
        RecordKind::Birthsign => {
            reveal_strlit("BSGN");
        },
        RecordKind::StartScript => {
            reveal_strlit("SSCR");
        },
        RecordKind::LandscapeTexture => {
            reveal_strlit("LTEX");
        },
        RecordKind::Spell => {
            reveal_strlit("SPEL");
        },
        RecordKind::Static => {
            reveal_strlit("STAT");
        },
        RecordKind::Door => {
            reveal_strlit("DOOR");
        },
        RecordKind::MiscItem => {
            reveal_strlit("MISC");
        },
        RecordKind::Weapon => {
            reveal_strlit("WEAP");
        },
        RecordKind::Container => {
            reveal_strlit("CONT");
        },
        RecordKind::Creature => {
            reveal_strlit("CREA");
        },
        RecordKind::Bodypart => {
            reveal_strlit("BODY");
        },
        RecordKind::Light => {
            reveal_strlit("LIGH");
        },
        RecordKind::Enchanting => {
            reveal_strlit("ENCH");
        },
        RecordKind::Npc => {
            reveal_strlit("NPC_");
        },
        RecordKind::Armor => {
            reveal_strlit("ARMO");
        },
        RecordKind::Clothing => {
            reveal_strlit("CLOT");
        },
        RecordKind::RepairItem => {
            reveal_strlit("REPA");
        },
        RecordKind::Activator => {
            reveal_strlit("ACTI");
        },
        RecordKind::Apparatus => {
            reveal_strlit("APPA");
        },
        RecordKind::Lockpick => {
            reveal_strlit("LOCK");
        },
        RecordKind::Probe => {
            reveal_strlit("PROB");
        },
        RecordKind::Ingredient => {
            reveal_strlit("INGR");
        },
        RecordKind::Book => {
            reveal_strlit("BOOK");
        },
        RecordKind::Alchemy => {
            reveal_strlit("ALCH");
        },
        RecordKind::LeveledItem => {
            reveal_strlit("LEVI");
        },
        RecordKind::LeveledCreature => {
            reveal_strlit("LEVC");
        },
        RecordKind::Cell => {
            reveal_strlit("CELL");
        },
        RecordKind::Landscape => {
            reveal_strlit("LAND");
        },
        RecordKind::PathGrid => {
            reveal_strlit("PGRD");
        },
        RecordKind::Dialogue => {
            reveal_strlit("DIAL");
        },
        RecordKind::DialogueInfo => {
            reveal_strlit("INFO");
        },
    }
}

/// No two variants share a name, so no two variants share a folder.
pub proof fn lemma_name_injective(a: RecordKind, b: RecordKind)
    requires
        a.spec_name() == b.spec_name(),
    ensures
        a == b,
{
    lemma_name_mark(a);
    lemma_name_mark(b);
    let s = a.spec_name();
    assert(name_mark(a) == (s.len(), s[0], s[1], s[2]));
    assert(name_mark(b) == (s.len(), s[0], s[1], s[2]));
}

/// The length of a variant's name and its first three letters, which tell the names apart.
pub open spec fn name_mark(k: RecordKind) -> (nat, char, char, char) {
    match k {
        RecordKind::Header => (6, 'H', 'e', 'a'),
        RecordKind::GameSetting => (11, 'G', 'a', 'm'),
        RecordKind::GlobalVariable => (14, 'G', 'l', 'o'),
        RecordKind::Class => (5, 'C', 'l', 'a'),
        RecordKind::Faction => (7, 'F', 'a', 'c'),
        RecordKind::Race => (4, 'R', 'a', 'c'),
        RecordKind::Sound => (5, 'S', 'o', 'u'),
        RecordKind::SoundGen => (8, 'S', 'o', 'u'),
        RecordKind::Skill => (5, 'S', 'k', 'i'),
        RecordKind::MagicEffect => (11, 'M', 'a', 'g'),
        RecordKind::Script => (6, 'S', 'c', 'r'),
        RecordKind::Region => (6, 'R', 'e', 'g'),
        RecordKind::Birthsign => (9, 'B', 'i', 'r'),
        RecordKind::StartScript => (11, 'S', 't', 'a'),
        RecordKind::LandscapeTexture => (16, 'L', 'a', 'n'),
        RecordKind::Spell => (5, 'S', 'p', 'e'),
        RecordKind::Static => (6, 'S', 't', 'a'),
        RecordKind::Door => (4, 'D', 'o', 'o'),
        RecordKind::MiscItem => (8, 'M', 'i', 's'),
        RecordKind::Weapon => (6, 'W', 'e', 'a'),
        RecordKind::Container => (9, 'C', 'o', 'n'),
        RecordKind::Creature => (8, 'C', 'r', 'e'),
        RecordKind::Bodypart => (8, 'B', 'o', 'd'),
        RecordKind::Light => (5, 'L', 'i', 'g'),
        RecordKind::Enchanting => (10, 'E', 'n', 'c'),
        RecordKind::Npc => (3, 'N', 'p', 'c'),
        RecordKind::Armor => (5, 'A', 'r', 'm'),
        RecordKind::Clothing => (8, 'C', 'l', 'o'),
        RecordKind::RepairItem => (10, 'R', 'e', 'p'),
        RecordKind::Activator => (9, 'A', 'c', 't'),
        RecordKind::Apparatus => (9, 'A', 'p', 'p'),
        RecordKind::Lockpick => (8, 'L', 'o', 'c'),
        RecordKind::Probe => (5, 'P', 'r', 'o'),
        RecordKind::Ingredient => (10, 'I', 'n', 'g'),
        RecordKind::Book => (4, 'B', 'o', 'o'),
        RecordKind::Alchemy => (7, 'A', 'l', 'c'),
        RecordKind::LeveledItem => (11, 'L', 'e', 'v'),
        RecordKind::LeveledCreature => (15, 'L', 'e', 'v'),
        RecordKind::Cell => (4, 'C', 'e', 'l'),
        RecordKind::Landscape => (9, 'L', 'a', 'n'),
        RecordKind::PathGrid => (8, 'P', 'a', 't'),
        RecordKind::Dialogue => (8, 'D', 'i', 'a'),
        RecordKind::DialogueInfo => (12, 'D', 'i', 'a'),
    }
}

/// A variant's name has the length and the first three letters listed for it.
pub proof fn lemma_name_mark(k: RecordKind)
    ensures
        name_mark(k) == (k.spec_name().len(), k.spec_name()[0], k.spec_name()[1], k.spec_name()[2]),
{
    match k {
        RecordKind::Header => {
            reveal_strlit("Header");
        },
        RecordKind::GameSetting => {
            reveal_strlit("GameSetting");
        },
        RecordKind::GlobalVariable => {
            reveal_strlit("GlobalVariable");
        },
        RecordKind::Class => {
            reveal_strlit("Class");
        },
        RecordKind::Faction => {
            reveal_strlit("Faction");
        },
        RecordKind::Race => {
            reveal_strlit("Race");
        },
        RecordKind::Sound => {
            reveal_strlit("Sound");
        },
        RecordKind::SoundGen => {
            reveal_strlit("SoundGen");
        },
        RecordKind::Skill => {
            reveal_strlit("Skill");
        },
        RecordKind::MagicEffect => {
            reveal_strlit("MagicEffect");
        },
        RecordKind::Script => {
            reveal_strlit("Script");
        },
        RecordKind::Region => {
            reveal_strlit("Region");
        },
        RecordKind::Birthsign => {
            reveal_strlit("Birthsign");
        },
        RecordKind::StartScript => {
            reveal_strlit("StartScript");
        },
        RecordKind::LandscapeTexture => {
            reveal_strlit("LandscapeTexture");
        },
        RecordKind::Spell => {
            reveal_strlit("Spell");
        },
        RecordKind::Static => {
            reveal_strlit("Static");
        },
        RecordKind::Door => {
            reveal_strlit("Door");
        },
        RecordKind::MiscItem => {
            reveal_strlit("MiscItem");
        },
        RecordKind::Weapon => {
            reveal_strlit("Weapon");
        },
        RecordKind::Container => {
            reveal_strlit("Container");
        },
        RecordKind::Creature => {
            reveal_strlit("Creature");
        },
        RecordKind::Bodypart => {
            reveal_strlit("Bodypart");
        },
        RecordKind::Light => {
            reveal_strlit("Light");
        },
        RecordKind::Enchanting => {
            reveal_strlit("Enchanting");
        },
        RecordKind::Npc => {
            reveal_strlit("Npc");
        },
        RecordKind::Armor => {
            reveal_strlit("Armor");
        },
        RecordKind::Clothing => {
            reveal_strlit("Clothing");
        },
        RecordKind::RepairItem => {
            reveal_strlit("RepairItem");
        },
        RecordKind::Activator => {
            reveal_strlit("Activator");
        },
        RecordKind::Apparatus => {
            reveal_strlit("Apparatus");
        },
        RecordKind::Lockpick => {
            reveal_strlit("Lockpick");
        },
        RecordKind::Probe => {
            reveal_strlit("Probe");
        },
        RecordKind::Ingredient => {
            reveal_strlit("Ingredient");
        },
        RecordKind::Book => {
            reveal_strlit("Book");
        },
        RecordKind::Alchemy => {
            reveal_strlit("Alchemy");
        },
        RecordKind::LeveledItem => {
            reveal_strlit("LeveledItem");
        },
        RecordKind::LeveledCreature => {
            reveal_strlit("LeveledCreature");
        },
        RecordKind::Cell => {
            reveal_strlit("Cell");
        },
        RecordKind::Landscape => {
            reveal_strlit("Landscape");
        },
        RecordKind::PathGrid => {
            reveal_strlit("PathGrid");
        },
        RecordKind::Dialogue => {
            reveal_strlit("Dialogue");
        },
        RecordKind::DialogueInfo => {
            reveal_strlit("DialogueInfo");
        },
    }
}

/// A record of a container: its variant, its identifier, the plain-text body where the
/// variant has one, and the attributes, which this library carries and never reads.
#[derive(Debug, Clone, PartialEq, Eq)]
pub struct Record<T> {
    pub kind: RecordKind,
    pub id: String,
    pub text: Option<String>,
    pub payload: T,
}

impl<T> Record<T> {
    /// The plain-text body that the record exports besides its attributes, if any.
    pub open spec fn spec_text_body(self) -> Option<Seq<char>> {
        match self.text {
            Some(t) if self.kind.spec_has_text_body() => Some(t@),
            _ => None,
        }
    }

    /// The record for what the codec read: the variant is the one that carries `tag`, and
    /// the text is kept only where that variant has a plain-text body. A tag that no
    /// variant carries is a gap in the classification.
    pub fn classify(tag: &str, id: String, text: Option<String>, payload: T) -> (r: Result<
        Record<T>,
        Error,
    >)
        ensures
            r == match RecordKind::spec_from_tag(tag@) {
                Some(kind) => Ok(
                    Record {
                        kind,
                        id,
                        text: if kind.spec_has_text_body() {
                            text
                        } else {
                            None
                        },
                        payload,
                    },
                ),
                None => Err(Error::UnknownTag),
            },
    {
        match RecordKind::from_tag(tag) {
            Some(kind) => {
                let text = if kind.has_text_body() {
                    text
                } else {
                    None
                };
                Ok(Record { kind, id, text, payload })
            },
            None => Err(Error::UnknownTag),
        }
    }
}

} // verus!
