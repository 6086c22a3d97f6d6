//! The rules for declarations: variables, parameters, functions and the
//! class.
use vstd::prelude::*;

use crate::ast::{
    fn_defs_view, parameters_view, stmts_view, variable_defs_view, Class, FnBody, FnDef, FnDefView,
    Parameter, ParameterView, Stmt, VariableDef, VariableDefView,
};
use crate::ast::within::{
    body_within, class_within, def_within, defs_within, fn_within, fns_within, params_within,
    span_within, stmts_within,
};
use crate::jack::error::{LexError, ParseError, ParseErrorKind};
use crate::jack::grammar::{
    class_name_error, left, p_class, p_class_fns, p_class_vars, p_fn_body, p_fn_def, p_fn_rest,
    p_param, p_params, p_params_rest, p_var_defs, p_var_names,
};
use crate::jack::parser::{
    fn_defs_result, parameters_result, variable_defs_result, view_result, Parser,
};
use crate::jack::token::{KwKind, TokenKind};
use crate::text::{lit_vec, push_lit};

verus! {

impl Parser {
    /// Parses one declaration of variables: one definition for each name.
    #[verifier::loop_isolation(false)]
    pub fn parse_variable_defs(&mut self) -> (r: Result<Vec<VariableDef>, ParseError>)
        requires
            old(self).wf(),
        ensures
            final(self).stepped(
                old(self),
                p_var_defs(old(self).items(), old(self).index(), old(self).span()),
            ),
            variable_defs_result(r) == p_var_defs(
                old(self).items(),
                old(self).index(),
                old(self).span(),
            ).res,
            r is Ok ==> old(self).index() < final(self).index(),
            r matches Ok(x) ==> defs_within(x@, old(self).limit()),
    {
        proof {
            self.lemma_wf();
        }
        let ghost ts = self.items();
        let kind = match self.parse_variable_kind() {
            Ok(kind) => kind,
            Err(e) => {
                return Err(e);
            },
        };
        let ty = match self.parse_value_type() {
            Ok(ty) => ty,
            Err(e) => {
                return Err(e);
            },
        };
        let name = match self.parse_ident() {
            Ok(name) => name,
            Err(e) => {
                return Err(e);
            },
        };
        let mut vars: Vec<VariableDef> = Vec::new();
        proof {
            self.lemma_wf();
        }
        vars.push(VariableDef { name, kind, ty: ty.duplicate(), span: self.current_span() });
        let ghost i3 = self.index();
        let ghost c3 = self.span();
        let ghost first = vars@[0]@;
        assert(variable_defs_view(vars@) =~= seq![first]);
        loop
            invariant
                self.wf(),
                self.items() == ts,
                self.limit() == old(self).limit(),
                i3 <= self.index(),
                self.span().high() >= c3.high(),
                defs_within(vars@, old(self).limit()),
                p_var_names(
                    ts,
                    self.index(),
                    self.span(),
                    kind,
                    ty@,
                    variable_defs_view(vars@),
                ).after((self.index() - i3) as nat) == p_var_names(ts, i3, c3, kind, ty@, seq![first]),
            decreases left(ts, self.index()),
        {
            match self.eat_if_matches(&TokenKind::Comma) {
                Ok(_) => {},
                Err(_) => {
                    break ;
                },
            }
            let name = match self.parse_ident() {
                Ok(name) => name,
                Err(e) => {
                    return Err(e);
                },
            };
            let ghost before = variable_defs_view(vars@);
            proof {
                self.lemma_wf();
            }
            let def = VariableDef { name, kind, ty: ty.duplicate(), span: self.current_span() };
            let ghost dv = def@;
            vars.push(def);
            assert(variable_defs_view(vars@) =~= before.push(dv));
        }
        match self.eat_by(TokenKind::Semicolon) {
            Ok(_) => Ok(vars),
            Err(e) => Err(e),
        }
    }

    /// Parses one parameter: a type and a name.
    pub fn parse_parameter(&mut self) -> (r: Result<Parameter, ParseError>)
        requires
            old(self).wf(),
        ensures
            final(self).stepped(
                old(self),
                p_param(old(self).items(), old(self).index(), old(self).span()),
            ),
            view_result(r) == p_param(
                old(self).items(),
                old(self).index(),
                old(self).span(),
            ).res,
            r matches Ok(x) ==> span_within(x.span, old(self).limit()),
    {
        proof {
            self.lemma_wf();
        }
        let ty = match self.parse_value_type() {
            Ok(ty) => ty,
            Err(e) => {
                return Err(e);
            },
        };
        let span = self.current_span();
        let name = match self.parse_ident() {
            Ok(name) => name,
            Err(e) => {
                return Err(e);
            },
        };
        proof {
            self.lemma_wf();
        }
        let span = span.with_hi(self.current_span().hi());
        Ok(Parameter { name, ty, span })
    }

    /// Parses a list of parameters. Where no first parameter can be read, the
    /// list is empty.
    #[verifier::loop_isolation(false)]
    pub fn parse_parameters(&mut self) -> (r: Result<Vec<Parameter>, ParseError>)
        requires
            old(self).wf(),
        ensures
            final(self).stepped(
                old(self),
                p_params(old(self).items(), old(self).index(), old(self).span()),
            ),
            parameters_result(r) == p_params(
                old(self).items(),
                old(self).index(),
                old(self).span(),
            ).res,
            r matches Ok(x) ==> params_within(x@, old(self).limit()),
    {
        proof {
            self.lemma_wf();
        }
        let ghost ts = self.items();
        let mut params: Vec<Parameter> = Vec::new();
        match self.parse_parameter() {
            Ok(first) => {
                params.push(first);
            },
            Err(_) => {
                assert(parameters_view(params@) =~= Seq::<ParameterView>::empty());
                return Ok(params);
            },
        }
        let ghost i1 = self.index();
        let ghost c1 = self.span();
        let ghost first = params@[0]@;
        assert(parameters_view(params@) =~= seq![first]);
        loop
            invariant
                self.wf(),
                self.items() == ts,
                self.limit() == old(self).limit(),
                i1 <= self.index(),
                self.span().high() >= c1.high(),
                params_within(params@, old(self).limit()),
                p_params_rest(ts, self.index(), self.span(), parameters_view(params@)).after(
                    (self.index() - i1) as nat,
                ) == p_params_rest(ts, i1, c1, seq![first]),
            decreases left(ts, self.index()),
        {
            match self.eat_if_matches(&TokenKind::Comma) {
                Ok(_) => {},
                Err(_) => {
                    break ;
                },
            }
            let param = match self.parse_parameter() {
                Ok(param) => param,
                Err(e) => {
                    return Err(e);
                },
            };
            let ghost before = parameters_view(params@);
            let ghost pv = param@;
            params.push(param);
            assert(parameters_view(params@) =~= before.push(pv));
        }
        Ok(params)
    }

    /// Parses the body of a function: declarations of variables and
    /// statements, up to a `}` or to what is neither. A lexical error ends
    /// the function.
    pub fn parse_fn_body(&mut self) -> (r: Result<FnBody, ParseError>)
        requires
            old(self).wf(),
        ensures
            final(self).stepped(
                old(self),
                p_fn_body(
                    old(self).items(),
                    old(self).index(),
                    old(self).span(),
                    Seq::empty(),
                    Seq::empty(),
                ),
            ),
            view_result(r) == p_fn_body(
                old(self).items(),
                old(self).index(),
                old(self).span(),
                Seq::empty(),
                Seq::empty(),
            ).res,
            r matches Ok(x) ==> body_within(x, old(self).limit()),
    {
        proof {
            self.lemma_wf();
        }
        let variables: Vec<VariableDef> = Vec::new();
        assert(variable_defs_view(variables@) =~= Seq::<VariableDefView>::empty());
        self.parse_fn_body_from(variables, Vec::new())
    }

    /// Parses the body of a function as `parse_fn_body` does; `variables` and
    /// `statements` hold what was read before.
    pub fn parse_fn_body_from(&mut self, variables: Vec<VariableDef>, statements: Vec<Stmt>) -> (r:
        Result<FnBody, ParseError>)
        requires
            old(self).wf(),
            defs_within(variables@, old(self).limit()),
            stmts_within(statements@, old(self).limit()),
        ensures
            final(self).stepped(
                old(self),
                p_fn_body(
                    old(self).items(),
                    old(self).index(),
                    old(self).span(),
                    variable_defs_view(variables@),
                    stmts_view(statements@),
                ),
            ),
            view_result(r) == p_fn_body(
                old(self).items(),
                old(self).index(),
                old(self).span(),
                variable_defs_view(variables@),
                stmts_view(statements@),
            ).res,
            r matches Ok(x) ==> body_within(x, old(self).limit()),
        decreases left(old(self).items(), old(self).index()),
    {
        proof {
            self.lemma_wf();
        }
        let mut variables = variables;
        let mut statements = statements;
        if !self.more_statements() {
            return Ok(FnBody { variables, statements });
        }
        match self.parse_variable_defs() {
            Ok(mut vs) => {
                let ghost before = variable_defs_view(variables@);
                let ghost added = variable_defs_view(vs@);
                let ghost held = variables@;
                let ghost read = vs@;
                variables.append(&mut vs);
                assert(variable_defs_view(variables@) =~= before + added);
                assert(defs_within(variables@, old(self).limit())) by {
                    assert forall|k: int| 0 <= k < variables@.len() implies def_within(
                        #[trigger] variables@[k],
                        old(self).limit(),
                    ) by {
                        if k < held.len() {
                            assert(variables@[k] == held[k]);
                        } else {
                            assert(variables@[k] == read[k - held.len()]);
                        }
                    }
                }
                proof {
                    self.lemma_wf();
                }
                return self.parse_fn_body_from(variables, statements);
            },
            Err(e) => match &e.kind {
                ParseErrorKind::LexError(_) => {
                    return Err(e);
                },
                _ => {},
            },
        }
        match self.parse_stmt() {
            Ok(stmt) => {
                let ghost before = statements@;
                statements.push(stmt);
                assert(statements@.drop_last() =~= before);
                proof {
                    self.lemma_wf();
                }
                self.parse_fn_body_from(variables, statements)
            },
            Err(e) => match &e.kind {
                ParseErrorKind::LexError(_) => Err(e),
                _ => Ok(FnBody { variables, statements }),
            },
        }
    }

    /// Parses the definition of a function.
    #[verifier::rlimit(40)]
    pub fn parse_fn_def(&mut self) -> (r: Result<FnDef, ParseError>)
        requires
            old(self).wf(),
        ensures
            final(self).stepped(
                old(self),
                p_fn_def(old(self).items(), old(self).index(), old(self).span()),
            ),
            view_result(r) == p_fn_def(
                old(self).items(),
                old(self).index(),
                old(self).span(),
            ).res,
            r is Ok ==> old(self).index() < final(self).index(),
            r matches Ok(x) ==> fn_within(x, old(self).limit()),
    {
        proof {
            self.lemma_wf();
        }
        let kind = match self.parse_fn_kind() {
            Ok(kind) => kind,
            Err(e) => {
                return Err(e);
            },
        };
        let ret = match self.parse_type() {
            Ok(ret) => ret,
            Err(e) => {
                return Err(e);
            },
        };
        let name = match self.parse_ident() {
            Ok(name) => name,
            Err(e) => {
                return Err(e);
            },
        };
        proof {
            self.lemma_wf();
        }
        let span = self.current_span();
        match self.eat_by(TokenKind::LParen) {
            Ok(_) => {},
            Err(e) => {
                return Err(e);
            },
        }
        let params = match self.parse_parameters() {
            Ok(params) => params,
            Err(e) => {
                return Err(e);
            },
        };
        let body = FnBody { variables: Vec::new(), statements: Vec::new() };
        assert(variable_defs_view(body.variables@) =~= Seq::<VariableDefView>::empty());
        self.parse_fn_rest(FnDef { name, span, kind, ret, params, body })
    }

    /// Parses the rest of a function behind its parameters: `)` and the body
    /// in braces. `head` holds what was read before.
    pub fn parse_fn_rest(&mut self, head: FnDef) -> (r: Result<FnDef, ParseError>)
        requires
            old(self).wf(),
            span_within(head.span, old(self).limit()),
            params_within(head.params@, old(self).limit()),
        ensures
            final(self).stepped(
                old(self),
                p_fn_rest(old(self).items(), old(self).index(), old(self).span(), head@),
            ),
            view_result(r) == p_fn_rest(
                old(self).items(),
                old(self).index(),
                old(self).span(),
                head@,
            ).res,
            r matches Ok(x) ==> fn_within(x, old(self).limit()),
    {
        proof {
            self.lemma_wf();
        }
        match self.eat_by(TokenKind::RParen) {
            Ok(_) => {},
            Err(e) => {
                return Err(e);
            },
        }
        match self.eat_by(TokenKind::LBrace) {
            Ok(_) => {},
            Err(e) => {
                return Err(e);
            },
        }
        let body = match self.parse_fn_body() {
            Ok(body) => body,
            Err(e) => {
                return Err(e);
            },
        };
        match self.eat_by(TokenKind::RBrace) {
            Ok(_) => {},
            Err(e) => {
                return Err(e);
            },
        }
        Ok(
            FnDef {
                name: head.name,
                span: head.span,
                kind: head.kind,
                ret: head.ret,
                params: head.params,
                body,
            },
        )
    }

    /// Parses the declarations of a class's variables, up to what is none.
    /// `variables` holds what was read before.
    pub fn parse_class_vars(&mut self, variables: Vec<VariableDef>) -> (r: Result<
        Vec<VariableDef>,
        ParseError,
    >)
        requires
            old(self).wf(),
            defs_within(variables@, old(self).limit()),
        ensures
            final(self).stepped(
                old(self),
                p_class_vars(
                    old(self).items(),
                    old(self).index(),
                    old(self).span(),
                    variable_defs_view(variables@),
                ),
            ),
            variable_defs_result(r) == p_class_vars(
                old(self).items(),
                old(self).index(),
                old(self).span(),
                variable_defs_view(variables@),
            ).res,
            r matches Ok(x) ==> defs_within(x@, old(self).limit()),
        decreases left(old(self).items(), old(self).index()),
    {
        proof {
            self.lemma_wf();
        }
        let mut variables = variables;
        match self.parse_variable_defs() {
            Ok(mut vs) => {
                let ghost before = variable_defs_view(variables@);
                let ghost added = variable_defs_view(vs@);
                variables.append(&mut vs);
                assert(variable_defs_view(variables@) =~= before + added);
                proof {
                    self.lemma_wf();
                }
                self.parse_class_vars(variables)
            },
            Err(e) => {
                match &e.kind {
                    ParseErrorKind::LexError(_) => Err(e),
                    _ => Ok(variables),
                }
            },
        }
    }

    /// Parses the functions of a class, up to what is none. `functions` holds
    /// what was read before.
    pub fn parse_class_fns(&mut self, functions: Vec<FnDef>) -> (r: Result<Vec<FnDef>, ParseError>)
        requires
            old(self).wf(),
            fns_within(functions@, old(self).limit()),
        ensures
            final(self).stepped(
                old(self),
                p_class_fns(
                    old(self).items(),
                    old(self).index(),
                    old(self).span(),
                    fn_defs_view(functions@),
                ),
            ),
            fn_defs_result(r) == p_class_fns(
                old(self).items(),
                old(self).index(),
                old(self).span(),
                fn_defs_view(functions@),
            ).res,
            r matches Ok(x) ==> fns_within(x@, old(self).limit()),
        decreases left(old(self).items(), old(self).index()),
    {
        proof {
            self.lemma_wf();
        }
        let mut functions = functions;
        match self.parse_fn_def() {
            Ok(function) => {
                let ghost before = fn_defs_view(functions@);
                let ghost fv = function@;
                functions.push(function);
                assert(fn_defs_view(functions@) =~= before.push(fv));
                proof {
                    self.lemma_wf();
                }
                self.parse_class_fns(functions)
            },
            Err(e) => {
                match &e.kind {
                    ParseErrorKind::LexError(_) => Err(e),
                    _ => Ok(functions),
                }
            },
        }
    }

    /// Parses a class. A keyword in the place of its name is reported with a
    /// hint.
    pub fn parse_class(&mut self) -> (r: Result<Class, ParseError>)
        requires
            old(self).wf(),
        ensures
            final(self).stepped(
                old(self),
                p_class(old(self).items(), old(self).index(), old(self).span()),
            ),
            view_result(r) == p_class(old(self).items(), old(self).index(), old(self).span()).res,
            r matches Ok(x) ==> class_within(x, old(self).limit()),
    {
        proof {
            self.lemma_wf();
        }
        match self.eat_if_matches(&TokenKind::Keyword(KwKind::Class)) {
            Ok(_) => {},
            Err(e) => {
                return Err(e);
            },
        }
        let name = match self.parse_ident() {
            Ok(name) => name,
            Err(e) => {
                return Err(Parser::class_name_hint(e));
            },
        };
        proof {
            self.lemma_wf();
        }
        let span = self.current_span();
        match self.eat_by(TokenKind::LBrace) {
            Ok(_) => {},
            Err(e) => {
                return Err(e);
            },
        }
        let empty: Vec<VariableDef> = Vec::new();
        assert(variable_defs_view(empty@) =~= Seq::<VariableDefView>::empty());
        let variables = match self.parse_class_vars(empty) {
            Ok(variables) => variables,
            Err(e) => {
                return Err(e);
            },
        };
        let none: Vec<FnDef> = Vec::new();
        assert(fn_defs_view(none@) =~= Seq::<FnDefView>::empty());
        let functions = match self.parse_class_fns(none) {
            Ok(functions) => functions,
            Err(e) => {
                return Err(e);
            },
        };
        match self.eat_by(TokenKind::RBrace) {
            Ok(_) => {},
            Err(e) => {
                return Err(e);
            },
        }
        Ok(Class { name, span, variables, functions })
    }

    /// Adds the hint to the error for a class whose name is a keyword.
    pub fn class_name_hint(e: ParseError) -> (r: ParseError)
        ensures
            r@ == class_name_error(e@),
    {
        match &e.kind {
            ParseErrorKind::ReservedKeyword(kind) => {
                let mut msg = lit_vec("you cannot use the keyword `");
                push_lit(&mut msg, kind.name());
                push_lit(&mut msg, "` for a class name");
                e.with_help(msg)
            },
            _ => e,
        }
    }
}

} // verus!
