use vstd::prelude::*;

verus! {

#[verifier::external_type_specification]
#[verifier::external_body]
pub struct ExParser<const N: usize>(vte::Parser<N>);

#[verifier::external_type_specification]
#[verifier::external_body]
pub struct ExParams(vte::Params);

/// Relies on vte::Parser::new: a parser in its ground state, with no
/// sequence in progress.
pub assume_specification[ vte::Parser::new ]() -> vte::Parser;

/// One action recognised in the byte stream: a printable character, a
/// control byte, or a control sequence (CSI) with its numeric parameters
/// and final byte.
#[derive(Debug, PartialEq, Eq)]
pub enum Action {
    Print(char),
    Execute(u8),
    Csi(Vec<u16>, char),
}

/// Gathers the actions that the parser reports, in order.
pub struct ActionCollector {
    pub actions: Vec<Action>,
}

impl vte::Perform for ActionCollector {
    fn print(&mut self, c: char) {
        self.actions.push(Action::Print(c));
    }

    fn execute(&mut self, byte: u8) {
        self.actions.push(Action::Execute(byte));
    }

    /// Relies on vte::Params::iter: the parameters in order, each with its
    /// sub-parameters, which are listed flat here.
    #[verifier::external_body]
    fn csi_dispatch(&mut self, params: &vte::Params, _intermediates: &[u8], _ignore: bool, action: char) {
        let params = params.iter().flatten().copied().collect::<Vec<u16>>();
        self.actions.push(Action::Csi(params, action));
    }
}

/// The actions that vte's parser reports when it is in state `p` and
/// is given `bytes`.
pub uninterp spec fn actions_of(p: vte::Parser, bytes: Seq<u8>) -> Seq<Action>;

/// Relies on vte::Parser::advance: it reports the actions found in
/// `bytes`, in order, and keeps an unfinished sequence in the parser for
/// the next call. The actions depend on the parser's state and the bytes
/// alone.
#[verifier::external_body]
pub(crate) fn tokenize(parser: &mut vte::Parser, bytes: &[u8]) -> (r: Vec<Action>)
    ensures
        r@ == actions_of(*old(parser), bytes@),
{
    let mut collector = ActionCollector { actions: Vec::new() };
    parser.advance(&mut collector, bytes);
    collector.actions
}

} // verus!
