//! VinylDB: a small single-node relational database core.
//!
//! SQL statements arrive as an abstract syntax tree (see [`ast`]), are lowered
//! into a logical plan ([`plan`]), rewritten into a tree of physical operators
//! ([`physical_plan`]), and evaluated against an embedded ordered key/value
//! store ([`storage_engine`]).  Rows are sequences of typed scalars ([`data`])
//! described by schemas registered in a catalog ([`catalog`]).

pub mod ast;
pub mod catalog;
pub mod config;
pub mod ctx;
pub mod data;
pub mod error;
pub mod expr;
pub mod logical_plan;
pub mod meta_cmd;
pub mod physical_plan;
pub mod plan;
pub mod storage_engine;
pub mod text;

use vstd::prelude::*;

verus! {

use crate::ast::Statement;
use crate::ctx::Context;
use crate::physical_plan::execute_post;
use crate::data::tuple::{Tuple, TupleStream};
use crate::error::Error;

/// A VinylDB instance: a thin wrapper around the session [`Context`].
#[derive(Debug)]
pub struct VinylDB {
    ctx: Context,
}

impl VinylDB {
    /// The wrapped session.
    pub closed spec fn spec_ctx(&self) -> Context {
        self.ctx
    }

    /// The wrapped session is well formed.
    pub open spec fn wf(&self) -> bool {
        self.spec_ctx().wf()
    }

    /// Open an instance over the given data directory.  On a fresh
    /// directory the instance is ready; on an existing one, feed the texts
    /// of [`Self::stored_create_sqls`] through the parser and hand the
    /// statements to [`Self::bootstrap`] first.
    pub fn new(data_path: String) -> (r: Result<VinylDB, Error>)
        ensures
            match r {
                Ok(db) => db.wf(),
                Err(e) => e is StorageError,
            },
    {
        match Context::new(data_path) {
            Err(e) => Err(e),
            Ok(ctx) => Ok(VinylDB { ctx }),
        }
    }

    /// The stored `CREATE TABLE` texts, in key order.
    pub fn stored_create_sqls(&self) -> (r: Result<Vec<String>, Error>)
        requires
            self.wf(),
        ensures
            match r {
                Ok(sqls) => crate::ctx::spec_stored_sqls(self.spec_ctx().storage) == Ok::<
                    Seq<Seq<char>>,
                    crate::error::ErrorV,
                >(sqls.deep_view()),
                Err(e) => e is StorageError || crate::ctx::spec_stored_sqls(
                    self.spec_ctx().storage,
                ) == Err::<Seq<Seq<char>>, crate::error::ErrorV>(e@),
            },
    {
        self.ctx.stored_create_sqls()
    }

    /// Install the user tables the re-parsed statements declare.
    pub fn bootstrap(&mut self, stmts: &Vec<Statement>) -> (r: Result<(), Error>)
        requires
            old(self).wf(),
        ensures
            final (self).wf(),
            match r {
                Ok(()) => crate::ctx::spec_bootstrap(old(self).spec_ctx().catalog@, stmts@, 0)
                    == Ok::<Seq<crate::catalog::TableV>, crate::error::ErrorV>(
                    final (self).spec_ctx().catalog@,
                ),
                Err(e) => crate::ctx::spec_bootstrap(old(self).spec_ctx().catalog@, stmts@, 0)
                    == Err::<Seq<crate::catalog::TableV>, crate::error::ErrorV>(e@),
            },
    {
        self.ctx.bootstrap(stmts)
    }

    /// Borrow the wrapped session.
    pub fn context(&self) -> (r: &Context)
        ensures
            r == self.spec_ctx(),
    {
        &self.ctx
    }

    /// Apply a meta command to the wrapped session.
    pub fn meta(&mut self, cmd: &crate::meta_cmd::MetaCmd)
        requires
            old(self).wf(),
        ensures
            final (self).wf(),
            crate::meta_cmd::spec_meta_apply(*cmd, old(self).spec_ctx().config@) == final (self).spec_ctx().config@,
            final (self).spec_ctx().catalog == old(self).spec_ctx().catalog,
            final (self).spec_ctx().storage == old(self).spec_ctx().storage,
    {
        cmd.execute(&mut self.ctx);
    }

    /// Execute one statement: lower it to a logical plan, rewrite that
    /// into physical operators, run them, and collect the result.
    pub fn sql(&mut self, statement: &Statement) -> (r: Result<Vec<Tuple>, Error>)
        requires
            old(self).wf(),
        ensures
            final (self).wf(),
            ({
                let oldc = old(self).spec_ctx();
                let newc = final (self).spec_ctx();
                match crate::plan::spec_statement_to_logical_plan(oldc.catalog@, *statement) {
                    Err(e) => r matches Err(e2) && e2@ == e && newc == oldc,
                    Ok(lp) => match crate::ctx::spec_create_physical(oldc.catalog@, lp) {
                        Err(e) => r matches Err(e2) && e2@ == e && newc == oldc,
                        Ok(pp) => match r {
                            Ok(rows) => exists|s: TupleStream|
                                #[trigger] execute_post(pp, oldc, newc, Ok(s))
                                    && s.remaining() == rows.deep_view(),
                            Err(e) => execute_post(pp, oldc, newc, Err(e)),
                        },
                    },
                }
            }),
    {
        let logical_plan = match self.ctx.statement_to_logical_plan(statement) {
            Err(e) => {
                return Err(e);
            },
            Ok(lp) => lp,
        };
        let physical_plan = match self.ctx.create_physical_plan(&logical_plan) {
            Err(e) => {
                return Err(e);
            },
            Ok(pp) => pp,
        };
        self.ctx.collect(&physical_plan)
    }
}

} // verus!
