use vstd::prelude::*;
use crate::game::character as game_character;
use crate::outcome::{collect_all, collected};
use crate::text::{join, join_strings, views};

verus! {

/// A character as its card shows it.
#[derive(Debug)]
pub struct Character {
    pub id: usize,
    pub name: String,
    pub origin_story: String,
    pub abilities: Vec<Ability>,
}

/// An ability as a character's card shows it.
#[derive(Debug)]
pub struct Ability {
    pub name: String,
    pub description: String,
}

/// What is shown between two character cards.
pub const CARD_SEPARATOR: &'static str = "<br>";

/// What is shown when characters cannot be rendered.
pub const CHARACTER_RENDER_ERROR: &'static str = "could not render";

/// The card shows the ability's name and description.
pub open spec fn shows_ability(card: Ability, a: game_character::Ability) -> bool {
    card.name@ == a.name@ && card.description@ == a.description@
}

/// A card shows an ability exactly when it shows the ability's whole name and whole
/// description: the same texts, of the same lengths.
pub proof fn lemma_card_shows_whole_ability(card: Ability, a: game_character::Ability)
    ensures
        shows_ability(card, a) <==> (card.name@ == a.name@ && card.description@ == a.description@),
        shows_ability(card, a) ==> card.description@.len() == a.description@.len(),
{
}

impl Ability {
    pub fn from_ability(ability: &game_character::Ability) -> (card: Ability)
        ensures
            shows_ability(card, *ability),
            card.name@ == ability.name@,
            card.description@ == ability.description@,
    {
        Ability { name: ability.name.clone(), description: ability.description.clone() }
    }
}

impl Character {
    /// The card of a character: id 0, its name, its origin story and its abilities.
    pub fn from_character(character: &game_character::Character) -> (card: Character)
        ensures
            card.id == 0,
            card.name@ == character.name@,
            card.origin_story@ == character.origin_story@,
            card.abilities.len() == character.abilities.len(),
            forall|i: int| 0 <= i < card.abilities.len() ==> #[trigger] shows_ability(
                card.abilities[i],
                character.abilities[i],
            ),
            forall|i: int| 0 <= i < card.abilities.len() ==> (#[trigger] card.abilities[i]).name@
                == character.abilities[i].name@ && card.abilities[i].description@
                == character.abilities[i].description@,
    {
        let mut abilities: Vec<Ability> = Vec::new();
        let n = character.abilities.len();
        let mut i: usize = 0;
        while i < n
            invariant
                n == character.abilities.len(),
                i <= n,
                abilities.len() == i,
                forall|j: int| 0 <= j < i ==> #[trigger] shows_ability(
                    abilities[j],
                    character.abilities[j],
                ),
                forall|j: int| 0 <= j < i ==> (#[trigger] abilities[j]).name@
                    == character.abilities[j].name@ && abilities[j].description@
                    == character.abilities[j].description@,
            decreases n - i,
        {
            abilities.push(Ability::from_ability(&character.abilities[i]));
            i = i + 1;
        }
        Character {
            id: 0,
            name: character.name.clone(),
            origin_story: character.origin_story.clone(),
            abilities,
        }
    }
}

/// The rendered cards one after another with the separator between them, or the
/// error of the first card that could not be rendered.
pub fn join_cards<E>(rendered: Vec<Result<String, E>>) -> (r: Result<String, E>)
    ensures
        match (r, collected(rendered@)) {
            (Ok(s), Ok(cards)) => s@ == join(views(cards), CARD_SEPARATOR@),
            (Err(e), Err(f)) => e == f,
            _ => false,
        },
{
    match collect_all(rendered) {
        Ok(cards) => Ok(join_strings(&cards, CARD_SEPARATOR)),
        Err(e) => Err(e),
    }
}

} // verus!
