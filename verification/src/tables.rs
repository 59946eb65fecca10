//! A store table name wrapped as a domain value.

use vstd::prelude::*;

verus! {

#[derive(Debug, Clone)]
pub struct TableName {
    pub table_name: String,
}

impl View for TableName {
    type V = Seq<char>;

    open spec fn view(&self) -> Seq<char> {
        self.table_name@
    }
}

impl TableName {
    pub fn new(name: String) -> (t: TableName)
        ensures
            t@ == name@,
    {
        TableName { table_name: name }
    }
}

} // verus!
