//! Statements for the database.

use vstd::prelude::*;

verus! {

/// A value that is bound to a statement.
#[derive(Clone, Debug, PartialEq)]
pub enum SqlValue {
    Integer(i64),
    Text(String),
    Blob(Vec<u8>),
    Boolean(bool),
    Uuid(u128),
}

/// What a bound value is.
pub enum SqlValueView {
    Integer(int),
    Text(Seq<char>),
    Blob(Seq<u8>),
    Boolean(bool),
    Uuid(u128),
}

impl View for SqlValue {
    type V = SqlValueView;

    open spec fn view(&self) -> SqlValueView {
        match *self {
            SqlValue::Integer(number) => SqlValueView::Integer(number as int),
            SqlValue::Text(text) => SqlValueView::Text(text@),
            SqlValue::Blob(bytes) => SqlValueView::Blob(bytes@),
            SqlValue::Boolean(flag) => SqlValueView::Boolean(flag),
            SqlValue::Uuid(uuid) => SqlValueView::Uuid(uuid),
        }
    }
}

/// A statement and the values for its placeholders, in order.
#[derive(Clone, Debug, PartialEq)]
pub struct Statement {
    pub sql: &'static str,
    pub values: Vec<SqlValue>,
}

impl Statement {
    /// The values for the placeholders, in order.
    pub open spec fn bound(self) -> Seq<SqlValueView> {
        self.values@.map_values(|value: SqlValue| value@)
    }

    /// Whether this runs the given text with the given values.
    pub open spec fn runs(self, sql: Seq<char>, values: Seq<SqlValueView>) -> bool {
        &&& self.sql@ == sql
        &&& self.bound() == values
    }

    /// A statement without placeholders.
    pub fn plain(sql: &'static str) -> (statement: Self)
        ensures
            statement.runs(sql@, Seq::empty()),
    {
        let statement = Statement { sql, values: Vec::new() };
        assert(statement.bound() =~= Seq::empty());
        statement
    }

    /// Binds a value to the next placeholder.
    pub fn bind(self, value: SqlValue) -> (statement: Self)
        ensures
            forall|values: Seq<SqlValueView>|
                self.runs(self.sql@, values) ==> statement.runs(self.sql@, values.push(value@)),
            statement.sql == self.sql,
    {
        let ghost before = self.bound();
        let mut values = self.values;
        values.push(value);
        let statement = Statement { sql: self.sql, values };
        assert(statement.bound() =~= before.push(value@));
        statement
    }
}

/// A statement starts without values, and binding adds one value at the end and leaves the text and
/// the other values as they are.
pub proof fn law_values_are_bound_in_order(
    sql: &'static str,
    plain: Statement,
    statement: Statement,
    value: SqlValue,
    bound: Statement,
)
    requires
        call_ensures(Statement::plain, (sql,), plain),
        call_ensures(Statement::bind, (statement, value), bound),
    ensures
        plain.sql@ == sql@,
        plain.values@.len() == 0,
        bound.sql == statement.sql,
        bound.values@.len() == statement.values@.len() + 1,
        bound.values@.last()@ == value@,
        forall|i: int|
            0 <= i < statement.values@.len() ==> (#[trigger] bound.values@[i])@
                == statement.values@[i]@,
{
    assert(plain.bound().len() == plain.values@.len());
    let before = statement.bound();
    assert(statement.runs(statement.sql@, before));
    assert(bound.runs(statement.sql@, before.push(value@)));
    assert(bound.bound() == before.push(value@));
    assert(bound.bound().len() == bound.values@.len());
    assert forall|i: int| 0 <= i < statement.values@.len() implies (#[trigger] bound.values@[i])@
        == statement.values@[i]@ by {
        assert(bound.bound()[i] == before.push(value@)[i]);
    }
    assert(bound.bound().last() == value@);
}

/// The values of a statement are those that its model has.
pub proof fn lemma_bound_values(statement: Statement)
    ensures
        statement.bound().len() == statement.values@.len(),
        forall|i: int|
            0 <= i < statement.values@.len() ==> statement.bound()[i] == (
            #[trigger] statement.values@[i])@,
{
}

} // verus!
