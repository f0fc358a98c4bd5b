//! The catalog of sign definitions and the text shown for a sign.

use crate::db::{SignInfo, SignState};
use crate::text::{i32_to_string, lemma_middle_occurs, occurs_in, same_text, signed_decimal};
use vstd::prelude::*;
use vstd::string::StringExecFns;

verus! {

/// The definition of one sign.
#[derive(Debug, PartialEq, Eq)]
pub struct SignData {
    pub id: String,
    pub name: String,
    pub difficulty: i32,
    pub description: String,
    pub effect: String,
    pub success_effect: String,
    pub failure_effect: String,
}

/// What a `SignData` stands for.
pub struct SignDataView {
    pub id: Seq<char>,
    pub name: Seq<char>,
    pub difficulty: i32,
    pub description: Seq<char>,
    pub effect: Seq<char>,
    pub success_effect: Seq<char>,
    pub failure_effect: Seq<char>,
}

impl View for SignData {
    type V = SignDataView;

    open spec fn view(&self) -> SignDataView {
        SignDataView {
            id: self.id@,
            name: self.name@,
            difficulty: self.difficulty,
            description: self.description@,
            effect: self.effect@,
            success_effect: self.success_effect@,
            failure_effect: self.failure_effect@,
        }
    }
}

impl Clone for SignData {
    fn clone(&self) -> (copy: SignData)
        ensures
            copy == *self,
    {
        SignData {
            id: self.id.clone(),
            name: self.name.clone(),
            difficulty: self.difficulty,
            description: self.description.clone(),
            effect: self.effect.clone(),
            success_effect: self.success_effect.clone(),
            failure_effect: self.failure_effect.clone(),
        }
    }
}

/// The lookup that a list of definitions gives: each identifier leads to the
/// last definition in the list that carries it.
pub open spec fn catalog_of(records: Seq<SignData>) -> Map<Seq<char>, SignDataView>
    decreases records.len(),
{
    if records.len() == 0 {
        Map::empty()
    } else {
        catalog_of(records.drop_last()).insert(records.last().id@, records.last()@)
    }
}

/// The sign definitions, by identifier. Built once and only read afterwards.
pub struct SignCatalog {
    records: Vec<SignData>,
}

impl View for SignCatalog {
    type V = Map<Seq<char>, SignDataView>;

    closed spec fn view(&self) -> Map<Seq<char>, SignDataView> {
        catalog_of(self.records@)
    }
}

proof fn lemma_catalog_lookup(records: Seq<SignData>, id: Seq<char>, at: int)
    requires
        0 <= at <= records.len(),
        forall|j: int| at <= j < records.len() ==> (#[trigger] records[j]).id@ != id,
    ensures
        at == 0 ==> !catalog_of(records).contains_key(id),
        at > 0 && records[at - 1].id@ == id ==> catalog_of(records).contains_key(id) && catalog_of(
            records,
        )[id] == records[at - 1]@,
    decreases records.len(),
{
    if records.len() == 0 {
    } else if at == records.len() {
        if at > 0 && records[at - 1].id@ == id {
        } else if at == 0 {
        }
    } else {
        let shorter = records.drop_last();
        assert(records.last().id@ != id);
        assert forall|j: int| at <= j < shorter.len() implies (#[trigger] shorter[j]).id@ != id by {
            assert(shorter[j] == records[j]);
        }
        lemma_catalog_lookup(shorter, id, at);
        if at > 0 {
            assert(shorter[at - 1] == records[at - 1]);
        }
    }
}

impl SignCatalog {
    /// Every definition in the catalog carries the identifier that leads to it.
    pub proof fn law_entries_carry_their_identifier(&self, id: Seq<char>)
        ensures
            self@.contains_key(id) ==> self@[id].id == id,
    {
        Self::lemma_ids(self.records@, id);
    }

    proof fn lemma_ids(records: Seq<SignData>, id: Seq<char>)
        ensures
            catalog_of(records).contains_key(id) ==> catalog_of(records)[id].id == id,
        decreases records.len(),
    {
        if records.len() > 0 {
            Self::lemma_ids(records.drop_last(), id);
        }
    }

    /// The definition of a sign, if the catalog has one.
    pub fn find(&self, sign_id: &str) -> (found: Option<&SignData>)
        ensures
            found matches Some(data) ==> self@.contains_key(sign_id@) && data@ == self@[sign_id@],
            found is None ==> !self@.contains_key(sign_id@),
    {
        let mut at: usize = self.records.len();
        while at > 0
            invariant
                at <= self.records.len(),
                forall|j: int| at <= j < self.records.len() ==> (#[trigger] self.records@[j]).id@ != sign_id@,
            decreases at,
        {
            if same_text(self.records[at - 1].id.as_str(), sign_id) {
                proof {
                    lemma_catalog_lookup(self.records@, sign_id@, at as int);
                }
                return Some(&self.records[at - 1]);
            }
            at = at - 1;
        }
        proof {
            lemma_catalog_lookup(self.records@, sign_id@, 0);
        }
        None
    }

    /// Whether the catalog defines the sign.
    pub fn contains(&self, sign_id: &str) -> (known: bool)
        ensures
            known == self@.contains_key(sign_id@),
    {
        self.find(sign_id).is_some()
    }
}

/// Builds the catalog from the definitions read at startup. Where two
/// definitions carry one identifier, the later one counts.
pub fn load_signs(data: Vec<SignData>) -> (catalog: SignCatalog)
    ensures
        catalog@ == catalog_of(data@),
{
    SignCatalog { records: data }
}

/// The part of the text that does not depend on the sign's state: name,
/// dice, difficulty, narrative and effect.
pub open spec fn sign_header(data: SignDataView) -> Seq<char> {
    "__**"@ + data.name + "**__\n**Кости:** "@ + data.id + "\n**Сложность:** "@ + signed_decimal(
        data.difficulty as int,
    ) + "\n\n> *"@ + data.description + "*\n\n**Эффект:** "@ + data.effect + "\n"@
}

/// The part of the text that depends on the sign's state: both outcomes
/// while the sign is open, afterwards the one that came about.
pub open spec fn sign_outcome(data: SignDataView, state: SignState) -> Seq<char> {
    match state {
        SignState::Created => "**Успех:** "@ + data.success_effect + "\n**Провал:** "@
            + data.failure_effect + "\n"@,
        SignState::Success { .. } => "**Эффект после изменения:** "@ + data.success_effect + "\n"@,
        SignState::Failed { .. } => "**Эффект после изменения:** "@ + data.failure_effect + "\n"@,
    }
}

/// The text shown for a sign in a given state.
pub open spec fn rendered_sign(data: SignDataView, state: SignState) -> Seq<char> {
    sign_header(data) + sign_outcome(data, state)
}

/// The text of a sign whose definition is at hand.
pub fn render(data: &SignData, state: SignState) -> (text: String)
    ensures
        text@ == rendered_sign(data@, state),
{
    let mut text = String::from_str("__**");
    text.append(data.name.as_str());
    text.append("**__\n**Кости:** ");
    text.append(data.id.as_str());
    text.append("\n**Сложность:** ");
    text.append(i32_to_string(data.difficulty).as_str());
    text.append("\n\n> *");
    text.append(data.description.as_str());
    text.append("*\n\n**Эффект:** ");
    text.append(data.effect.as_str());
    text.append("\n");
    assert(text@ == sign_header(data@));
    let mut outcome = String::new();
    match state {
        SignState::Created => {
            outcome.append("**Успех:** ");
            outcome.append(data.success_effect.as_str());
            outcome.append("\n**Провал:** ");
            outcome.append(data.failure_effect.as_str());
            outcome.append("\n");
        },
        SignState::Success { .. } => {
            outcome.append("**Эффект после изменения:** ");
            outcome.append(data.success_effect.as_str());
            outcome.append("\n");
        },
        SignState::Failed { .. } => {
            outcome.append("**Эффект после изменения:** ");
            outcome.append(data.failure_effect.as_str());
            outcome.append("\n");
        },
    }
    assert(outcome@ =~= sign_outcome(data@, state));
    text.append(outcome.as_str());
    text
}

/// The text shown for a sign that the catalog defines.
pub fn render_sign(catalog: &SignCatalog, sign: &SignInfo) -> (text: String)
    requires
        catalog@.contains_key(sign.id@),
    ensures
        text@ == rendered_sign(catalog@[sign.id@], sign.state),
{
    match catalog.find(sign.id.as_str()) {
        Some(data) => render(data, sign.state),
        None => String::new(),
    }
}

/// The text of a sign always holds its narrative. While the sign is open it
/// holds both outcome texts; once it is resolved its last line names the
/// outcome that came about and no other line follows the effect.
pub proof fn law_rendered_sign_shows_outcomes(data: SignDataView, state: SignState)
    ensures
        occurs_in(data.description, rendered_sign(data, state)),
        state is Created ==> occurs_in(data.success_effect, rendered_sign(data, state))
            && occurs_in(data.failure_effect, rendered_sign(data, state)),
        state is Success ==> rendered_sign(data, state) == sign_header(data)
            + "**Эффект после изменения:** "@ + data.success_effect + "\n"@,
        state is Failed ==> rendered_sign(data, state) == sign_header(data)
            + "**Эффект после изменения:** "@ + data.failure_effect + "\n"@,
{
    let whole = rendered_sign(data, state);
    let outcome = sign_outcome(data, state);
    let before = "__**"@ + data.name + "**__\n**Кости:** "@ + data.id + "\n**Сложность:** "@
        + signed_decimal(data.difficulty as int) + "\n\n> *"@;
    let after = "*\n\n**Эффект:** "@ + data.effect + "\n"@ + outcome;
    assert(whole =~= before + data.description + after);
    lemma_middle_occurs(before, data.description, after);
    match state {
        SignState::Created => {
            let b1 = sign_header(data) + "**Успех:** "@;
            let a1 = "\n**Провал:** "@ + data.failure_effect + "\n"@;
            assert(whole =~= b1 + data.success_effect + a1);
            lemma_middle_occurs(b1, data.success_effect, a1);
            let b2 = sign_header(data) + "**Успех:** "@ + data.success_effect + "\n**Провал:** "@;
            assert(whole =~= b2 + data.failure_effect + "\n"@);
            lemma_middle_occurs(b2, data.failure_effect, "\n"@);
        },
        SignState::Success { .. } => {
            assert(whole =~= sign_header(data) + "**Эффект после изменения:** "@
                + data.success_effect + "\n"@);
        },
        SignState::Failed { .. } => {
            assert(whole =~= sign_header(data) + "**Эффект после изменения:** "@
                + data.failure_effect + "\n"@);
        },
    }
}

/// The threshold that an influence attempt on the sign has to reach.
pub fn get_difficulty(catalog: &SignCatalog, sign_id: &str) -> (difficulty: i32)
    requires
        catalog@.contains_key(sign_id@),
    ensures
        difficulty == catalog@[sign_id@].difficulty,
{
    match catalog.find(sign_id) {
        Some(data) => data.difficulty,
        None => 0,
    }
}

} // verus!
