//! The per-order session actor: it owns the current state and handler,
//! interprets inbound messages from either party, executes the emitted
//! commands in order, and keeps the two last-value-wins outbound cells.
//! Its whole behaviour is the spec function [`actor_step`].

use vstd::prelude::*;
use vstd::string::*;
use crate::handlers::events::{
    Command, CommandModel, Party, StateKind, complete_wire, error_wire, lon_infix,
    position_body, position_prefix, processed_wire, state_index, tag_suffix, transition_wire,
    with_state_tag,
};
use crate::handlers::handler::{
    courier_commands, customer_commands, delivered_wire, lemma_parse_position_round_trip,
    parse_courier, parse_customer, CourierUpdateModel, CustomerUpdateModel,
    WebSocketUpdateHandler,
};
use crate::wire::is_json_number;

verus! {

/// Snapshot of a session actor: the state, the latest value of each
/// outbound cell, and whether the terminal notice has been sent.
pub struct ActorModel {
    pub state: StateKind,
    pub out_customer: Seq<char>,
    pub out_courier: Seq<char>,
    pub completed: bool,
}

/// One write to an outbound cell, in execution order.
pub struct OutboundWrite {
    pub party: Party,
    pub payload: String,
}

impl View for OutboundWrite {
    type V = (Party, Seq<char>);

    open spec fn view(&self) -> (Party, Seq<char>) {
        (self.party, self.payload@)
    }
}

impl DeepView for OutboundWrite {
    type V = (Party, Seq<char>);

    open spec fn deep_view(&self) -> (Party, Seq<char>) {
        self.view()
    }
}

/// Accumulator of command execution: the state as it changes under
/// transitions, whether the terminal command has run, and the writes
/// issued so far.
pub struct RunState {
    pub state: StateKind,
    pub completed: bool,
    pub writes: Seq<(Party, Seq<char>)>,
}

/// The accumulator before any command has run.
pub open spec fn init_acc(state: StateKind) -> RunState {
    RunState { state, completed: false, writes: Seq::<(Party, Seq<char>)>::empty() }
}

/// Effect of one command.  After the terminal command nothing further
/// is executed; a notification is tagged with the state current at the
/// moment it is written.
pub open spec fn apply_command(acc: RunState, c: CommandModel) -> RunState {
    if acc.completed {
        acc
    } else {
        match c {
            CommandModel::SendCourierNotify(body) => RunState {
                state: acc.state,
                completed: false,
                writes: acc.writes.push((Party::Courier, with_state_tag(body, acc.state))),
            },
            CommandModel::SendCustomerNotify(body) => RunState {
                state: acc.state,
                completed: false,
                writes: acc.writes.push((Party::Customer, with_state_tag(body, acc.state))),
            },
            CommandModel::ProcessedCourierUpdate => RunState {
                state: acc.state,
                completed: false,
                writes: acc.writes.push((Party::Courier, processed_wire())),
            },
            CommandModel::ProcessedCustomerUpdate => RunState {
                state: acc.state,
                completed: false,
                writes: acc.writes.push((Party::Customer, processed_wire())),
            },
            CommandModel::CustomerError(e) => RunState {
                state: acc.state,
                completed: false,
                writes: acc.writes.push((Party::Customer, e)),
            },
            CommandModel::CourierError(e) => RunState {
                state: acc.state,
                completed: false,
                writes: acc.writes.push((Party::Courier, e)),
            },
            CommandModel::Transition(k) => RunState {
                state: k,
                completed: false,
                writes: acc.writes.push((Party::Customer, transition_wire(k))).push(
                    (Party::Courier, transition_wire(k)),
                ),
            },
            CommandModel::OrderComplete => RunState {
                state: acc.state,
                completed: true,
                writes: acc.writes.push((Party::Customer, complete_wire())).push(
                    (Party::Courier, complete_wire()),
                ),
            },
        }
    }
}

/// Execution of a command list, front to back.
pub open spec fn run_from(acc: RunState, cmds: Seq<CommandModel>) -> RunState
    decreases cmds.len(),
{
    if cmds.len() == 0 {
        acc
    } else {
        run_from(apply_command(acc, cmds.first()), cmds.drop_first())
    }
}

/// Execution of a command list from a fresh accumulator.
pub open spec fn run_commands(state0: StateKind, cmds: Seq<CommandModel>) -> RunState {
    run_from(init_acc(state0), cmds)
}

/// Once the terminal command has run, nothing further executes.
pub proof fn lemma_run_from_completed(acc: RunState, cmds: Seq<CommandModel>)
    requires
        acc.completed,
    ensures
        run_from(acc, cmds) == acc,
    decreases cmds.len(),
{
    if cmds.len() > 0 {
        lemma_run_from_completed(acc, cmds.drop_first());
    }
}

/// The value an outbound cell holds after a list of writes: the last
/// one addressed to that party, or the prior value when there is none.
pub open spec fn last_write_to(p: Party, writes: Seq<(Party, Seq<char>)>, prior: Seq<char>) -> Seq<
    char,
>
    decreases writes.len(),
{
    if writes.len() == 0 {
        prior
    } else if writes.last().0 == p {
        writes.last().1
    } else {
        last_write_to(p, writes.drop_last(), prior)
    }
}

/// The commands one inbound message yields, by its sender.
pub open spec fn party_commands(state: StateKind, party: Party, msg: Seq<char>) -> Seq<
    CommandModel,
> {
    match party {
        Party::Courier => courier_commands(state, msg),
        Party::Customer => customer_commands(state, msg),
    }
}

/// The writes one inbound message causes.
pub open spec fn step_writes(m: ActorModel, party: Party, msg: Seq<char>) -> Seq<
    (Party, Seq<char>),
> {
    if m.completed {
        Seq::<(Party, Seq<char>)>::empty()
    } else {
        run_commands(m.state, party_commands(m.state, party, msg)).writes
    }
}

/// The whole behaviour of the session actor on one inbound message:
/// parse under the active state's schema, interpret, execute, and fold
/// the writes into the two last-value-wins cells.  After the terminal
/// command the actor ignores everything.
pub open spec fn actor_step(m: ActorModel, party: Party, msg: Seq<char>) -> ActorModel {
    if m.completed {
        m
    } else {
        let rs = run_commands(m.state, party_commands(m.state, party, msg));
        ActorModel {
            state: rs.state,
            completed: rs.completed,
            out_customer: last_write_to(Party::Customer, rs.writes, m.out_customer),
            out_courier: last_write_to(Party::Courier, rs.writes, m.out_courier),
        }
    }
}

/// Effect of a single write on a cell.
pub proof fn lemma_last_write_one(p: Party, x: (Party, Seq<char>), prior: Seq<char>)
    ensures
        last_write_to(p, seq![x], prior) == if x.0 == p {
            x.1
        } else {
            prior
        },
{
    let s = seq![x];
    assert(s.len() == 1);
    assert(s.last() == x);
    assert(s.drop_last() =~= Seq::<(Party, Seq<char>)>::empty());
    assert(last_write_to(p, Seq::<(Party, Seq<char>)>::empty(), prior) == prior);
}

/// Effect of two writes on a cell.
pub proof fn lemma_last_write_two(
    p: Party,
    x: (Party, Seq<char>),
    y: (Party, Seq<char>),
    prior: Seq<char>,
)
    ensures
        last_write_to(p, seq![x, y], prior) == if y.0 == p {
            y.1
        } else if x.0 == p {
            x.1
        } else {
            prior
        },
{
    let s = seq![x, y];
    assert(s.len() == 2);
    assert(s.last() == y);
    assert(s.drop_last() =~= seq![x]);
    lemma_last_write_one(p, x, prior);
}

/// Folding writes into a cell goes piecewise.
pub proof fn lemma_last_write_concat(
    p: Party,
    a: Seq<(Party, Seq<char>)>,
    b: Seq<(Party, Seq<char>)>,
    prior: Seq<char>,
)
    ensures
        last_write_to(p, a + b, prior) == last_write_to(p, b, last_write_to(p, a, prior)),
    decreases b.len(),
{
    if b.len() == 0 {
        assert(a + b =~= a);
    } else {
        assert((a + b).drop_last() =~= a + b.drop_last());
        assert((a + b).last() == b.last());
        lemma_last_write_concat(p, a, b.drop_last(), prior);
    }
}

/// The session actor.
pub struct EventActor {
    pub outbound_customer: String,
    pub outbound_courier: String,
    pub handler: WebSocketUpdateHandler,
    pub current_state: StateKind,
    pub completed: bool,
}

impl View for EventActor {
    type V = ActorModel;

    open spec fn view(&self) -> ActorModel {
        ActorModel {
            state: self.current_state,
            out_customer: self.outbound_customer@,
            out_courier: self.outbound_courier@,
            completed: self.completed,
        }
    }
}

impl EventActor {
    /// Exactly one handler is active, and it is the one bound to the
    /// current state.
    pub open spec fn wf(&self) -> bool {
        self.handler.state() == self.current_state
    }

    /// A fresh session: state `Created`, both outbound cells empty.
    pub fn new() -> (r: Self)
        ensures
            r.wf(),
            r@.state == StateKind::Created,
            r@.out_customer == Seq::<char>::empty(),
            r@.out_courier == Seq::<char>::empty(),
            !r@.completed,
    {
        Self {
            outbound_customer: String::new(),
            outbound_courier: String::new(),
            handler: WebSocketUpdateHandler::new(StateKind::Created),
            current_state: StateKind::Created,
            completed: false,
        }
    }

    /// The state the session is currently in.
    pub fn current_state(&self) -> (r: StateKind)
        ensures
            r == self@.state,
    {
        self.current_state
    }

    /// Whether the terminal notice has been broadcast.
    pub fn is_completed(&self) -> (r: bool)
        ensures
            r == self@.completed,
    {
        self.completed
    }

    /// Tag `msg` with the current state's name and write it to the
    /// customer cell.
    fn send_customer_update(&mut self, msg: String) -> (w: String)
        ensures
            w@ == with_state_tag(msg@, old(self).current_state),
            final(self).outbound_customer@ == w@,
            final(self).outbound_courier == old(self).outbound_courier,
            final(self).handler == old(self).handler,
            final(self).current_state == old(self).current_state,
            final(self).completed == old(self).completed,
    {
        let w = self.tagged(msg);
        self.outbound_customer = w.clone();
        w
    }

    /// Tag `msg` with the current state's name and write it to the
    /// courier cell.
    fn send_courier_update(&mut self, msg: String) -> (w: String)
        ensures
            w@ == with_state_tag(msg@, old(self).current_state),
            final(self).outbound_courier@ == w@,
            final(self).outbound_customer == old(self).outbound_customer,
            final(self).handler == old(self).handler,
            final(self).current_state == old(self).current_state,
            final(self).completed == old(self).completed,
    {
        let w = self.tagged(msg);
        self.outbound_courier = w.clone();
        w
    }

    /// Splice the `order_state` field into a notification body.
    fn tagged(&self, msg: String) -> (w: String)
        ensures
            w@ == with_state_tag(msg@, self.current_state),
    {
        let n: usize = msg.as_str().unicode_len();
        if n == 0 {
            String::new()
        } else {
            let mut w: String = msg.as_str().substring_char(0, n - 1).to_owned();
            w.append(",\"order_state\":\"");
            w.append(self.current_state.name());
            w.append("\"}");
            proof {
                assert(w@ =~= with_state_tag(msg@, self.current_state));
            }
            w
        }
    }

    /// Replace the handler wholesale with the new state's, record the
    /// state, and broadcast the transition notice on both cells.
    fn transition(&mut self, tr: StateKind) -> (w: String)
        ensures
            w@ == transition_wire(tr),
            final(self).current_state == tr,
            final(self).wf(),
            final(self).completed == old(self).completed,
            final(self).outbound_customer@ == transition_wire(tr),
            final(self).outbound_courier@ == transition_wire(tr),
    {
        let new_handler = WebSocketUpdateHandler::new(tr);
        let mut msg: String = String::from_str("{\"transition\":\"");
        msg.append(tr.name());
        msg.append("\"}");
        proof {
            assert(msg@ =~= transition_wire(tr));
        }
        self.handler = new_handler;
        self.current_state = tr;
        self.outbound_customer = msg.clone();
        self.outbound_courier = msg.clone();
        msg
    }

    /// Execute one command: update state and cells, and append the
    /// writes it issues.
    fn exec_one(&mut self, c: Command, writes: &mut Vec<OutboundWrite>)
        requires
            old(self).wf(),
            !old(self).completed,
        ensures
            final(self).wf(),
            (apply_command(
                RunState {
                    state: old(self).current_state,
                    completed: false,
                    writes: old(writes).deep_view(),
                },
                c@,
            ) == RunState {
                state: final(self).current_state,
                completed: final(self).completed,
                writes: final(writes).deep_view(),
            }),
            final(self).outbound_customer@ == last_write_to(
                Party::Customer,
                final(writes).deep_view().skip(old(writes).deep_view().len() as int),
                old(self).outbound_customer@,
            ),
            final(self).outbound_courier@ == last_write_to(
                Party::Courier,
                final(writes).deep_view().skip(old(writes).deep_view().len() as int),
                old(self).outbound_courier@,
            ),
    {
        let ghost ws0 = writes.deep_view();
        match c {
            Command::SendCourierNotify(msg) => {
                let ghost body = msg@;
                let w = self.send_courier_update(msg);
                writes.push(OutboundWrite { party: Party::Courier, payload: w });
                proof {
                    assert(writes.deep_view() =~= ws0.push(
                        (Party::Courier, with_state_tag(body, old(self).current_state)),
                    ));
                    assert(writes.deep_view().skip(ws0.len() as int) =~= seq![
                        (Party::Courier, with_state_tag(body, old(self).current_state)),
                    ]);
                    lemma_last_write_one(Party::Customer, (Party::Courier, with_state_tag(body, old(self).current_state)), old(self).outbound_customer@);
                    lemma_last_write_one(Party::Courier, (Party::Courier, with_state_tag(body, old(self).current_state)), old(self).outbound_courier@);
                }
            },
            Command::SendCustomerNotify(msg) => {
                let ghost body = msg@;
                let w = self.send_customer_update(msg);
                writes.push(OutboundWrite { party: Party::Customer, payload: w });
                proof {
                    assert(writes.deep_view() =~= ws0.push(
                        (Party::Customer, with_state_tag(body, old(self).current_state)),
                    ));
                    assert(writes.deep_view().skip(ws0.len() as int) =~= seq![
                        (Party::Customer, with_state_tag(body, old(self).current_state)),
                    ]);
                    lemma_last_write_one(Party::Customer, (Party::Customer, with_state_tag(body, old(self).current_state)), old(self).outbound_customer@);
                    lemma_last_write_one(Party::Courier, (Party::Customer, with_state_tag(body, old(self).current_state)), old(self).outbound_courier@);
                }
            },
            Command::Transition(tr) => {
                let w = self.transition(tr);
                let w2 = w.clone();
                writes.push(OutboundWrite { party: Party::Customer, payload: w });
                writes.push(OutboundWrite { party: Party::Courier, payload: w2 });
                proof {
                    assert(writes.deep_view() =~= ws0.push((Party::Customer, transition_wire(tr)))
                        .push((Party::Courier, transition_wire(tr))));
                    assert(writes.deep_view().skip(ws0.len() as int) =~= seq![
                        (Party::Customer, transition_wire(tr)),
                        (Party::Courier, transition_wire(tr)),
                    ]);
                    lemma_last_write_two(Party::Customer, (Party::Customer, transition_wire(tr)), (Party::Courier, transition_wire(tr)), old(self).outbound_customer@);
                    lemma_last_write_two(Party::Courier, (Party::Customer, transition_wire(tr)), (Party::Courier, transition_wire(tr)), old(self).outbound_courier@);
                }
            },
            Command::ProcessedCourierUpdate => {
                let w = String::from_str("\"PROCESSED\"");
                self.outbound_courier = w.clone();
                writes.push(OutboundWrite { party: Party::Courier, payload: w });
                proof {
                    assert(writes.deep_view() =~= ws0.push((Party::Courier, processed_wire())));
                    assert(writes.deep_view().skip(ws0.len() as int) =~= seq![
                        (Party::Courier, processed_wire()),
                    ]);
                    lemma_last_write_one(Party::Customer, (Party::Courier, processed_wire()), old(self).outbound_customer@);
                    lemma_last_write_one(Party::Courier, (Party::Courier, processed_wire()), old(self).outbound_courier@);
                }
            },
            Command::ProcessedCustomerUpdate => {
                let w = String::from_str("\"PROCESSED\"");
                self.outbound_customer = w.clone();
                writes.push(OutboundWrite { party: Party::Customer, payload: w });
                proof {
                    assert(writes.deep_view() =~= ws0.push((Party::Customer, processed_wire())));
                    assert(writes.deep_view().skip(ws0.len() as int) =~= seq![
                        (Party::Customer, processed_wire()),
                    ]);
                    lemma_last_write_one(Party::Customer, (Party::Customer, processed_wire()), old(self).outbound_customer@);
                    lemma_last_write_one(Party::Courier, (Party::Customer, processed_wire()), old(self).outbound_courier@);
                }
            },
            Command::CustomerError(e) => {
                let ghost t = e@;
                self.outbound_customer = e.clone();
                writes.push(OutboundWrite { party: Party::Customer, payload: e });
                proof {
                    assert(writes.deep_view() =~= ws0.push((Party::Customer, t)));
                    assert(writes.deep_view().skip(ws0.len() as int) =~= seq![
                        (Party::Customer, t),
                    ]);
                    lemma_last_write_one(Party::Customer, (Party::Customer, t), old(self).outbound_customer@);
                    lemma_last_write_one(Party::Courier, (Party::Customer, t), old(self).outbound_courier@);
                }
            },
            Command::CourierError(e) => {
                let ghost t = e@;
                self.outbound_courier = e.clone();
                writes.push(OutboundWrite { party: Party::Courier, payload: e });
                proof {
                    assert(writes.deep_view() =~= ws0.push((Party::Courier, t)));
                    assert(writes.deep_view().skip(ws0.len() as int) =~= seq![
                        (Party::Courier, t),
                    ]);
                    lemma_last_write_one(Party::Customer, (Party::Courier, t), old(self).outbound_customer@);
                    lemma_last_write_one(Party::Courier, (Party::Courier, t), old(self).outbound_courier@);
                }
            },
            Command::OrderComplete => {
                let w = String::from_str("\"ORDER_COMPLETE\"");
                self.outbound_customer = w.clone();
                let w2 = String::from_str("\"ORDER_COMPLETE\"");
                self.outbound_courier = w2.clone();
                self.completed = true;
                writes.push(OutboundWrite { party: Party::Customer, payload: w });
                writes.push(OutboundWrite { party: Party::Courier, payload: w2 });
                proof {
                    assert(writes.deep_view() =~= ws0.push((Party::Customer, complete_wire()))
                        .push((Party::Courier, complete_wire())));
                    assert(writes.deep_view().skip(ws0.len() as int) =~= seq![
                        (Party::Customer, complete_wire()),
                        (Party::Courier, complete_wire()),
                    ]);
                    lemma_last_write_two(Party::Customer, (Party::Customer, complete_wire()), (Party::Courier, complete_wire()), old(self).outbound_customer@);
                    lemma_last_write_two(Party::Courier, (Party::Customer, complete_wire()), (Party::Courier, complete_wire()), old(self).outbound_courier@);
                }
            },
        }
    }

    /// Execute a command list in emission order, collecting the writes.
    /// Nothing past the terminal command runs.
    fn execute_commands(&mut self, commands: Vec<Command>) -> (writes: Vec<OutboundWrite>)
        requires
            old(self).wf(),
            !old(self).completed,
        ensures
            final(self).wf(),
            (run_commands(old(self).current_state, commands.deep_view()) == RunState {
                state: final(self).current_state,
                completed: final(self).completed,
                writes: writes.deep_view(),
            }),
            final(self).outbound_customer@ == last_write_to(
                Party::Customer,
                writes.deep_view(),
                old(self).outbound_customer@,
            ),
            final(self).outbound_courier@ == last_write_to(
                Party::Courier,
                writes.deep_view(),
                old(self).outbound_courier@,
            ),
    {
        let ghost all = commands.deep_view();
        let mut cmds = commands;
        let mut writes: Vec<OutboundWrite> = Vec::new();
        proof {
            assert(writes.deep_view() =~= Seq::<(Party, Seq<char>)>::empty());
        }
        while cmds.len() > 0 && !self.completed
            invariant
                self.wf(),
                run_from(init_acc(old(self).current_state), all) == run_from(
                    RunState {
                        state: self.current_state,
                        completed: self.completed,
                        writes: writes.deep_view(),
                    },
                    cmds.deep_view(),
                ),
                self.outbound_customer@ == last_write_to(
                    Party::Customer,
                    writes.deep_view(),
                    old(self).outbound_customer@,
                ),
                self.outbound_courier@ == last_write_to(
                    Party::Courier,
                    writes.deep_view(),
                    old(self).outbound_courier@,
                ),
            decreases cmds.len(),
        {
            let ghost acc_pre = RunState {
                state: self.current_state,
                completed: self.completed,
                writes: writes.deep_view(),
            };
            let ghost rest_pre = cmds.deep_view();
            let ghost cust_pre = self.outbound_customer@;
            let ghost cour_pre = self.outbound_courier@;
            let c = cmds.remove(0);
            proof {
                assert(cmds.deep_view() =~= rest_pre.drop_first());
                assert(c.deep_view() == rest_pre.first());
            }
            let ghost ws_pre = writes.deep_view();
            self.exec_one(c, &mut writes);
            proof {
                let delta = writes.deep_view().skip(ws_pre.len() as int);
                assert(writes.deep_view() =~= ws_pre + delta);
                lemma_last_write_concat(
                    Party::Customer,
                    ws_pre,
                    delta,
                    old(self).outbound_customer@,
                );
                lemma_last_write_concat(
                    Party::Courier,
                    ws_pre,
                    delta,
                    old(self).outbound_courier@,
                );
            }
        }
        if cmds.len() > 0 {
            proof {
                lemma_run_from_completed(
                    RunState {
                        state: self.current_state,
                        completed: self.completed,
                        writes: writes.deep_view(),
                    },
                    cmds.deep_view(),
                );
            }
        }
        writes
    }

    /// Handle one inbound message end to end: schema-check it for the
    /// sending party under the current state, interpret it, execute the
    /// commands, and hand back the outbound writes in order.  The whole
    /// effect equals [`actor_step`] on the actor's snapshot.
    pub fn handle_message(&mut self, party: Party, message: String) -> (writes: Vec<OutboundWrite>)
        requires
            old(self).wf(),
        ensures
            final(self).wf(),
            final(self)@ == actor_step(old(self)@, party, message@),
            writes.deep_view() == step_writes(old(self)@, party, message@),
    {
        if self.completed {
            let writes: Vec<OutboundWrite> = Vec::new();
            proof {
                assert(writes.deep_view() =~= step_writes(self@, party, message@));
            }
            return writes;
        }
        let commands: Vec<Command> = match party {
            Party::Courier => self.handler.inbound_courier_update(message),
            Party::Customer => self.handler.inbound_customer_update(message),
        };
        self.execute_commands(commands)
    }
}

/// One command from a fresh accumulator.
pub proof fn lemma_run_one(state0: StateKind, c: CommandModel)
    ensures
        run_commands(state0, seq![c]) == apply_command(init_acc(state0), c),
{
    let s = seq![c];
    assert(s.len() == 1);
    assert(s.first() == c);
    assert(s.drop_first() =~= Seq::<CommandModel>::empty());
    assert(run_from(apply_command(init_acc(state0), c), Seq::<CommandModel>::empty())
        == apply_command(init_acc(state0), c));
}

/// Two commands from a fresh accumulator.
pub proof fn lemma_run_two(state0: StateKind, c1: CommandModel, c2: CommandModel)
    ensures
        run_commands(state0, seq![c1, c2]) == apply_command(
            apply_command(init_acc(state0), c1),
            c2,
        ),
{
    let s = seq![c1, c2];
    assert(s.len() == 2);
    assert(s.first() == c1);
    assert(s.drop_first() =~= seq![c2]);
    let acc1 = apply_command(init_acc(state0), c1);
    let s2 = seq![c2];
    assert(s2.first() == c2);
    assert(s2.drop_first() =~= Seq::<CommandModel>::empty());
    assert(run_from(apply_command(acc1, c2), Seq::<CommandModel>::empty()) == apply_command(
        acc1,
        c2,
    ));
    assert(run_from(acc1, s2) == apply_command(acc1, c2));
}

/// Law: one step moves the state forward along
/// `Created -> InTransit -> Delivered` or not at all, and the terminal
/// command runs only while the state is `Delivered`.
pub proof fn lemma_actor_step_edges(m: ActorModel, party: Party, msg: Seq<char>)
    ensures
        state_index(actor_step(m, party, msg).state) >= state_index(m.state),
        actor_step(m, party, msg).state == m.state || (m.state == StateKind::Created
            && actor_step(m, party, msg).state == StateKind::InTransit) || (m.state
            == StateKind::InTransit && actor_step(m, party, msg).state == StateKind::Delivered),
        actor_step(m, party, msg).completed ==> m.completed || m.state == StateKind::Delivered,
        m.completed ==> actor_step(m, party, msg) == m,
{
    if !m.completed {
        let cmds = party_commands(m.state, party, msg);
        match party {
            Party::Courier => {
                match parse_courier(m.state, msg) {
                    Some(u) => {
                        match (m.state, u) {
                            (StateKind::Created, CourierUpdateModel::TookOrder) => {
                                lemma_run_one(
                                    m.state,
                                    CommandModel::Transition(StateKind::InTransit),
                                );
                            },
                            (StateKind::InTransit, CourierUpdateModel::Position(lat, lon)) => {
                                lemma_run_two(
                                    m.state,
                                    CommandModel::SendCustomerNotify(position_body(lat, lon)),
                                    CommandModel::ProcessedCourierUpdate,
                                );
                            },
                            (StateKind::InTransit, CourierUpdateModel::Delivered) => {
                                lemma_run_one(
                                    m.state,
                                    CommandModel::Transition(StateKind::Delivered),
                                );
                            },
                            _ => {
                                assert(cmds =~= Seq::<CommandModel>::empty());
                            },
                        }
                    },
                    None => {
                        lemma_run_one(m.state, CommandModel::CourierError(error_wire()));
                    },
                }
            },
            Party::Customer => {
                match parse_customer(m.state, msg) {
                    Some(u) => {
                        match (m.state, u) {
                            (StateKind::Delivered, CustomerUpdateModel::DeliveryConfirmed) => {
                                lemma_run_one(m.state, CommandModel::OrderComplete);
                            },
                            _ => {
                                assert(cmds =~= Seq::<CommandModel>::empty());
                            },
                        }
                    },
                    None => {
                        lemma_run_one(m.state, CommandModel::CustomerError(error_wire()));
                    },
                }
            },
        }
    }
}

/// A whole session run, message by message.
pub open spec fn actor_run(m: ActorModel, msgs: Seq<(Party, Seq<char>)>) -> ActorModel
    decreases msgs.len(),
{
    if msgs.len() == 0 {
        m
    } else {
        actor_run(actor_step(m, msgs.first().0, msgs.first().1), msgs.drop_first())
    }
}

/// Law: over any sequence of inbound messages the states a session
/// visits never move backward, so they form one subsequence of
/// `Created -> InTransit -> Delivered`; and the terminal command is
/// never observed before the `Delivered` transition.
pub proof fn lemma_actor_run_monotone(m: ActorModel, msgs: Seq<(Party, Seq<char>)>)
    ensures
        state_index(actor_run(m, msgs).state) >= state_index(m.state),
        actor_run(m, msgs).completed ==> m.completed || actor_run(m, msgs).state
            == StateKind::Delivered,
    decreases msgs.len(),
{
    if msgs.len() > 0 {
        let m1 = actor_step(m, msgs.first().0, msgs.first().1);
        lemma_actor_step_edges(m, msgs.first().0, msgs.first().1);
        lemma_actor_run_monotone(m1, msgs.drop_first());
        if actor_run(m, msgs).completed && !m.completed && m1.completed {
            assert(m.state == StateKind::Delivered);
            assert(m1.state == StateKind::Delivered);
            assert(state_index(actor_run(m, msgs).state) >= 2);
        }
    }
}

/// Law: a message rejected by the active state's schema is answered
/// with the error payload on the sender's cell only; the state and the
/// other party's cell are untouched.
pub proof fn lemma_schema_violation(m: ActorModel, party: Party, msg: Seq<char>)
    requires
        !m.completed,
        party == Party::Courier ==> parse_courier(m.state, msg) is None,
        party == Party::Customer ==> parse_customer(m.state, msg) is None,
    ensures
        actor_step(m, party, msg).state == m.state,
        !actor_step(m, party, msg).completed,
        party == Party::Courier ==> actor_step(m, party, msg).out_courier == error_wire()
            && actor_step(m, party, msg).out_customer == m.out_customer,
        party == Party::Customer ==> actor_step(m, party, msg).out_customer == error_wire()
            && actor_step(m, party, msg).out_courier == m.out_courier,
        step_writes(m, party, msg) == seq![(party, error_wire())],
{
    match party {
        Party::Courier => {
            let x = (Party::Courier, error_wire());
            lemma_run_one(m.state, CommandModel::CourierError(error_wire()));
            assert(run_commands(
                m.state,
                party_commands(m.state, party, msg),
            ).writes =~= seq![x]);
            lemma_last_write_one(Party::Customer, x, m.out_customer);
            lemma_last_write_one(Party::Courier, x, m.out_courier);
        },
        Party::Customer => {
            let x = (Party::Customer, error_wire());
            lemma_run_one(m.state, CommandModel::CustomerError(error_wire()));
            assert(run_commands(
                m.state,
                party_commands(m.state, party, msg),
            ).writes =~= seq![x]);
            lemma_last_write_one(Party::Customer, x, m.out_customer);
            lemma_last_write_one(Party::Courier, x, m.out_courier);
        },
    }
}

/// Law: a position update sent by the courier in transit reaches the
/// customer with both coordinate literals untouched and the `InTransit`
/// state tag; the courier receives the processed acknowledgment; the
/// state does not change.
pub proof fn lemma_position_relay(m: ActorModel, lat: Seq<char>, lon: Seq<char>)
    requires
        !m.completed,
        m.state == StateKind::InTransit,
        is_json_number(lat),
        is_json_number(lon),
    ensures
        actor_step(m, Party::Courier, position_body(lat, lon)).state == StateKind::InTransit,
        !actor_step(m, Party::Courier, position_body(lat, lon)).completed,
        actor_step(m, Party::Courier, position_body(lat, lon)).out_customer == position_prefix()
            + lat + lon_infix() + lon + "}"@ + tag_suffix(StateKind::InTransit),
        actor_step(m, Party::Courier, position_body(lat, lon)).out_courier == processed_wire(),
{
    let msg = position_body(lat, lon);
    lemma_parse_position_round_trip(lat, lon);
    reveal_strlit("\"Delivered\"");
    reveal_strlit("{\"InTransit\":{\"lat\":");
    reveal_strlit(",\"lon\":");
    reveal_strlit("}}");
    reveal_strlit("}");
    assert(lat.len() >= 1);
    assert(lon.len() >= 1);
    assert(position_prefix().len() == 20);
    assert(msg.len() >= 31);
    assert(delivered_wire().len() == 11);
    assert(msg != delivered_wire());
    assert(parse_courier(StateKind::InTransit, msg) == Some(
        CourierUpdateModel::Position(lat, lon),
    ));
    lemma_run_two(
        m.state,
        CommandModel::SendCustomerNotify(position_body(lat, lon)),
        CommandModel::ProcessedCourierUpdate,
    );
    let w1 = (Party::Customer, with_state_tag(position_body(lat, lon), StateKind::InTransit));
    let w2 = (Party::Courier, processed_wire());
    assert(run_commands(
        m.state,
        party_commands(m.state, Party::Courier, msg),
    ).writes =~= seq![w1, w2]);
    lemma_last_write_two(Party::Customer, w1, w2, m.out_customer);
    lemma_last_write_two(Party::Courier, w1, w2, m.out_courier);
    assert(with_state_tag(position_body(lat, lon), StateKind::InTransit) =~= position_prefix()
        + lat + lon_infix() + lon + "}"@ + tag_suffix(StateKind::InTransit));
}

} // verus!
