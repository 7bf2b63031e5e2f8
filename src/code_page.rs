use vstd::prelude::*;
use crate::handlers::{
    conforms_from, filled, lemma_wf_tree, lemma_conforms_prefix, lemma_conforms_shift, lemma_slot_conforms_prefix,
    slot_conforms, Handler, Handlers,
};
use crate::loader::{Loader, Variant};
use crate::opcodes::{entry, Node};

verus! {

impl Handlers {
    /// The dispatch table of code page 0: every opcode byte sequence that the
    /// code page assigns leads to its loader, every other one to `Unknown`.
    pub fn new_code_page_0() -> (r: Handlers)
        ensures
            r.wf(),
            r.conforms(Node::Root),
            r.is_tree(),
    {
        let mut handlers = Handlers::new();
        handlers.add_code_page_0_part_stack();
        let ghost s1 = handlers;
        handlers.add_code_page_0_tuple();
        let ghost s2 = handlers;
        handlers.add_code_page_0_part_constant();
        let ghost s3 = handlers;
        handlers.add_code_page_0_arithmetic();
        let ghost s4 = handlers;
        handlers.add_code_page_0_comparsion();
        let ghost s5 = handlers;
        handlers.add_code_page_0_cell();
        let ghost s6 = handlers;
        handlers.add_code_page_0_control_flow();
        let ghost s7 = handlers;
        handlers.add_code_page_0_exceptions();
        let ghost s8 = handlers;
        handlers.add_code_page_0_dictionaries();
        let ghost s9 = handlers;
        handlers.add_code_page_0_gas_rand_config();
        let ghost s10 = handlers;
        handlers.add_code_page_0_blockchain();
        let ghost s11 = handlers;
        handlers.add_code_page_0_crypto();
        let ghost s12 = handlers;
        handlers.add_code_page_0_debug();
        let ghost s13 = handlers;
        let table_ff = Handlers::prefix_ff_table();
        let ghost (at_ff, slots_ff, nodes_ff) = (handlers.nodes().len() as int, table_ff.slots(), table_ff.nodes());
        handlers.add_subset(0xFF, table_ff);
        proof {
            lemma_conforms_shift(nodes_ff, handlers.nodes(), slots_ff, Node::PrefixFF, 2, at_ff + 1);
            assert forall|b: u8|
                #![trigger entry(Node::Root, b)]
                slot_conforms(handlers.nodes(), handlers.slots(), Node::Root, b, 3) by {
                if 0x00 <= b <= 0x6C {
                    lemma_slot_conforms_prefix(s1.nodes(), handlers.nodes(), s1.slots(), handlers.slots(), Node::Root, b, 3);
                } else if 0x6D <= b <= 0x6F {
                    lemma_slot_conforms_prefix(s2.nodes(), handlers.nodes(), s2.slots(), handlers.slots(), Node::Root, b, 3);
                } else if 0x70 <= b <= 0x9F {
                    lemma_slot_conforms_prefix(s3.nodes(), handlers.nodes(), s3.slots(), handlers.slots(), Node::Root, b, 3);
                } else if 0xA0 <= b <= 0xB7 {
                    lemma_slot_conforms_prefix(s4.nodes(), handlers.nodes(), s4.slots(), handlers.slots(), Node::Root, b, 3);
                } else if 0xB8 <= b <= 0xC7 {
                    lemma_slot_conforms_prefix(s5.nodes(), handlers.nodes(), s5.slots(), handlers.slots(), Node::Root, b, 3);
                } else if 0xC8 <= b <= 0xD7 {
                    lemma_slot_conforms_prefix(s6.nodes(), handlers.nodes(), s6.slots(), handlers.slots(), Node::Root, b, 3);
                } else if 0xD8 <= b <= 0xF1 {
                    lemma_slot_conforms_prefix(s7.nodes(), handlers.nodes(), s7.slots(), handlers.slots(), Node::Root, b, 3);
                } else if 0xF2 <= b <= 0xF3 {
                    lemma_slot_conforms_prefix(s8.nodes(), handlers.nodes(), s8.slots(), handlers.slots(), Node::Root, b, 3);
                } else if b == 0xF4 {
                    lemma_slot_conforms_prefix(s9.nodes(), handlers.nodes(), s9.slots(), handlers.slots(), Node::Root, b, 3);
                } else if b == 0xF8 {
                    lemma_slot_conforms_prefix(s10.nodes(), handlers.nodes(), s10.slots(), handlers.slots(), Node::Root, b, 3);
                } else if 0xFA <= b <= 0xFB {
                    lemma_slot_conforms_prefix(s11.nodes(), handlers.nodes(), s11.slots(), handlers.slots(), Node::Root, b, 3);
                } else if b == 0xF9 {
                    lemma_slot_conforms_prefix(s12.nodes(), handlers.nodes(), s12.slots(), handlers.slots(), Node::Root, b, 3);
                } else if b == 0xFE {
                    lemma_slot_conforms_prefix(s13.nodes(), handlers.nodes(), s13.slots(), handlers.slots(), Node::Root, b, 3);
                }
            }
        }
        proof {
            lemma_wf_tree(handlers);
        }
        handlers
    }

    /// Stack manipulation: first bytes 0x00 to 0x6C.
    fn add_code_page_0_part_stack(&mut self)
        requires
            old(self).wf(),
            old(self).nodes().len() < 64,
            forall|b: int| 0x00 <= b <= 0x6C ==> old(self).slots()[b] == Handler::Unknown,
        ensures
            final(self).extends_root(*old(self), 0x00, 0x6C, 3),
    {
        self.add_stack_exchanges();
        let ghost halfway = *self;
        self.add_stack_blocks();
        proof {
            assert forall|b: u8| 0x00 <= b <= 0x4F implies #[trigger] slot_conforms(self.nodes(), self.slots(), Node::Root, b, 3) by {
                lemma_slot_conforms_prefix(halfway.nodes(), self.nodes(), halfway.slots(), self.slots(), Node::Root, b, 3);
            }
        }
    }

    /// Stack exchanges, pushes and pops: first bytes 0x00 to 0x4F.
    fn add_stack_exchanges(&mut self)
        requires
            old(self).wf(),
            old(self).nodes().len() < 128,
            forall|b: int| 0x00 <= b <= 0x4F ==> old(self).slots()[b] == Handler::Unknown,
        ensures
            final(self).extends_root(*old(self), 0x00, 0x4F, 0),
    {
        self.set(0x00, Loader::Nop);
        self.set_range(0x01..0x10, Loader::XchgSimple);
        self.set(0x10, Loader::XchgStd);
        self.set(0x11, Loader::XchgLong);
        self.set_range(0x12..0x20, Loader::XchgSimple);
        self.set_range(0x20..0x30, Loader::PushSimple);
        self.set_range(0x30..0x40, Loader::PopSimple);
        self.set_range(0x40..0x50, Loader::Xchg3);
    }

    /// Stack block and compound operations: first bytes 0x50 to 0x6C.
    fn add_stack_blocks(&mut self)
        requires
            old(self).wf(),
            old(self).nodes().len() < 128,
            forall|b: int| 0x50 <= b <= 0x6C ==> old(self).slots()[b] == Handler::Unknown,
        ensures
            final(self).extends_root(*old(self), 0x50, 0x6C, 3),
    {
        self.set(0x50, Loader::Xchg2);
        self.set(0x51, Loader::Xcpu);
        self.set(0x52, Loader::Puxc);
        self.set(0x53, Loader::Push2);
        let table_54 = Handlers::prefix_54_table();
        let ghost (at_54, slots_54, nodes_54) = (self.nodes().len() as int, table_54.slots(), table_54.nodes());
        self.add_subset(0x54, table_54);
        let ghost after_54 = self.nodes();
        proof {
            lemma_conforms_shift(nodes_54, after_54, slots_54, Node::Prefix54, 2, at_54 + 1);
        }
        self.set(0x55, Loader::Blkswap);
        self.set(0x56, Loader::Push);
        self.set(0x57, Loader::Pop);
        self.set(0x58, Loader::Rot);
        self.set(0x59, Loader::Rotrev);
        self.set(0x5A, Loader::Swap2);
        self.set(0x5B, Loader::Drop2);
        self.set(0x5C, Loader::Dup2);
        self.set(0x5D, Loader::Over2);
        self.set(0x5E, Loader::Reverse);
        let table_5f = Handlers::prefix_5f_table();
        let ghost (at_5f, slots_5f, nodes_5f) = (self.nodes().len() as int, table_5f.slots(), table_5f.nodes());
        self.add_subset(0x5F, table_5f);
        let ghost after_5f = self.nodes();
        proof {
            lemma_conforms_shift(nodes_5f, after_5f, slots_5f, Node::Prefix5F, 2, at_5f + 1);
        }
        self.set(0x60, Loader::Pick);
        self.set(0x61, Loader::Rollx);
        self.set(0x62, Loader::Rollrevx);
        self.set(0x63, Loader::Blkswx);
        self.set(0x64, Loader::Revx);
        self.set(0x65, Loader::Dropx);
        self.set(0x66, Loader::Tuck);
        self.set(0x67, Loader::Xchgx);
        self.set(0x68, Loader::Depth);
        self.set(0x69, Loader::Chkdepth);
        self.set(0x6A, Loader::Onlytopx);
        self.set(0x6B, Loader::Onlyx);
        let table_6c = Handlers::prefix_6c_table();
        let ghost (at_6c, slots_6c, nodes_6c) = (self.nodes().len() as int, table_6c.slots(), table_6c.nodes());
        self.add_subset(0x6C, table_6c);
        let ghost after_6c = self.nodes();
        proof {
            lemma_conforms_shift(nodes_6c, after_6c, slots_6c, Node::Prefix6C, 2, at_6c + 1);
        }
        proof {
            lemma_conforms_prefix(after_54, self.nodes(), after_54[at_54], Node::Prefix54, 2);
            lemma_conforms_prefix(after_5f, self.nodes(), after_5f[at_5f], Node::Prefix5F, 2);
            lemma_conforms_prefix(after_6c, self.nodes(), after_6c[at_6c], Node::Prefix6C, 2);
        }
    }

    /// Tuples and nulls: first bytes 0x6D to 0x6F.
    fn add_code_page_0_tuple(&mut self)
        requires
            old(self).wf(),
            old(self).nodes().len() < 64,
            forall|b: int| 0x6D <= b <= 0x6F ==> old(self).slots()[b] == Handler::Unknown,
        ensures
            final(self).extends_root(*old(self), 0x6D, 0x6F, 1),
    {
        self.set(0x6D, Loader::Null);
        self.set(0x6E, Loader::Isnull);
        let table_6f = Handlers::prefix_6f_table();
        let ghost (at_6f, slots_6f, nodes_6f) = (self.nodes().len() as int, table_6f.slots(), table_6f.nodes());
        self.add_subset(0x6F, table_6f);
        let ghost after_6f = self.nodes();
        proof {
            lemma_conforms_shift(nodes_6f, after_6f, slots_6f, Node::Prefix6F, 2, at_6f + 1);
        }
        proof {
            lemma_conforms_prefix(after_6f, self.nodes(), after_6f[at_6f], Node::Prefix6F, 2);
        }
    }

    /// Constants and literal pushes: first bytes 0x70 to 0x9F.
    fn add_code_page_0_part_constant(&mut self)
        requires
            old(self).wf(),
            old(self).nodes().len() < 64,
            forall|b: int| 0x70 <= b <= 0x9F ==> old(self).slots()[b] == Handler::Unknown,
        ensures
            final(self).extends_root(*old(self), 0x70, 0x9F, 1),
    {
        self.set_range(0x70..0x82, Loader::Pushint);
        self.set(0x82, Loader::PushintBig);
        let table_83 = Handlers::prefix_83_table();
        let ghost (at_83, slots_83, nodes_83) = (self.nodes().len() as int, table_83.slots(), table_83.nodes());
        self.add_subset(0x83, table_83);
        let ghost after_83 = self.nodes();
        proof {
            lemma_conforms_shift(nodes_83, after_83, slots_83, Node::Prefix83, 2, at_83 + 1);
        }
        self.set(0x84, Loader::Pushpow2dec);
        self.set(0x85, Loader::Pushnegpow2);
        self.set(0x88, Loader::Pushref);
        self.set(0x89, Loader::Pushrefslice);
        self.set(0x8A, Loader::Pushrefcont);
        self.set(0x8B, Loader::PushsliceShort);
        self.set(0x8C, Loader::PushsliceMid);
        self.set(0x8D, Loader::PushsliceLong);
        self.set_range(0x8E..0x90, Loader::PushcontLong);
        self.set_range(0x90..0xA0, Loader::PushcontShort);
        proof {
            lemma_conforms_prefix(after_83, self.nodes(), after_83[at_83], Node::Prefix83, 2);
        }
    }

    /// Arithmetic, signaling and (behind 0xB7) quiet: first bytes 0xA0 to 0xB7.
    fn add_code_page_0_arithmetic(&mut self)
        requires
            old(self).wf(),
            old(self).nodes().len() < 64,
            forall|b: int| 0xA0 <= b <= 0xB7 ==> old(self).slots()[b] == Handler::Unknown,
        ensures
            final(self).extends_root(*old(self), 0xA0, 0xB7, 3),
    {
        self.set(0xA0, Loader::Add(Variant::Signaling));
        self.set(0xA1, Loader::Sub(Variant::Signaling));
        self.set(0xA2, Loader::Subr(Variant::Signaling));
        self.set(0xA3, Loader::Negate(Variant::Signaling));
        self.set(0xA4, Loader::Inc(Variant::Signaling));
        self.set(0xA5, Loader::Dec(Variant::Signaling));
        self.set(0xA6, Loader::Addconst(Variant::Signaling));
        self.set(0xA7, Loader::Mulconst(Variant::Signaling));
        self.set(0xA8, Loader::Mul(Variant::Signaling));
        self.set(0xA9, Loader::Divmod(Variant::Signaling));
        self.set(0xAA, Loader::Lshift(Variant::Signaling));
        self.set(0xAB, Loader::Rshift(Variant::Signaling));
        self.set(0xAC, Loader::Lshift(Variant::Signaling));
        self.set(0xAD, Loader::Rshift(Variant::Signaling));
        self.set(0xAE, Loader::Pow2(Variant::Signaling));
        self.set(0xB0, Loader::And(Variant::Signaling));
        self.set(0xB1, Loader::Or(Variant::Signaling));
        self.set(0xB2, Loader::Xor(Variant::Signaling));
        self.set(0xB3, Loader::Not(Variant::Signaling));
        self.set(0xB4, Loader::Fits(Variant::Signaling));
        self.set(0xB5, Loader::Ufits(Variant::Signaling));
        let table_b6 = Handlers::prefix_b6_table();
        let ghost (at_b6, slots_b6, nodes_b6) = (self.nodes().len() as int, table_b6.slots(), table_b6.nodes());
        self.add_subset(0xB6, table_b6);
        let ghost after_b6 = self.nodes();
        proof {
            lemma_conforms_shift(nodes_b6, after_b6, slots_b6, Node::PrefixB6, 2, at_b6 + 1);
        }
        let table_b7 = Handlers::prefix_b7_table();
        let ghost (at_b7, slots_b7, nodes_b7) = (self.nodes().len() as int, table_b7.slots(), table_b7.nodes());
        self.add_subset(0xB7, table_b7);
        let ghost after_b7 = self.nodes();
        proof {
            lemma_conforms_shift(nodes_b7, after_b7, slots_b7, Node::PrefixB7, 2, at_b7 + 1);
        }
        proof {
            lemma_conforms_prefix(after_b6, self.nodes(), after_b6[at_b6], Node::PrefixB6, 2);
            lemma_conforms_prefix(after_b7, self.nodes(), after_b7[at_b7], Node::PrefixB7, 2);
        }
    }

    /// Comparisons: first bytes 0xB8 to 0xC7.
    fn add_code_page_0_comparsion(&mut self)
        requires
            old(self).wf(),
            old(self).nodes().len() < 64,
            forall|b: int| 0xB8 <= b <= 0xC7 ==> old(self).slots()[b] == Handler::Unknown,
        ensures
            final(self).extends_root(*old(self), 0xB8, 0xC7, 1),
    {
        self.set(0xB8, Loader::Sgn(Variant::Signaling));
        self.set(0xB9, Loader::Less(Variant::Signaling));
        self.set(0xBA, Loader::Equal(Variant::Signaling));
        self.set(0xBB, Loader::Leq(Variant::Signaling));
        self.set(0xBC, Loader::Greater(Variant::Signaling));
        self.set(0xBD, Loader::Neq(Variant::Signaling));
        self.set(0xBE, Loader::Geq(Variant::Signaling));
        self.set(0xBF, Loader::Cmp(Variant::Signaling));
        self.set(0xC0, Loader::Eqint(Variant::Signaling));
        self.set(0xC1, Loader::Lessint(Variant::Signaling));
        self.set(0xC2, Loader::Gtint(Variant::Signaling));
        self.set(0xC3, Loader::Neqint(Variant::Signaling));
        self.set(0xC4, Loader::Isnan);
        self.set(0xC5, Loader::Chknan);
        let table_c7 = Handlers::prefix_c7_table();
        let ghost (at_c7, slots_c7, nodes_c7) = (self.nodes().len() as int, table_c7.slots(), table_c7.nodes());
        self.add_subset(0xC7, table_c7);
        let ghost after_c7 = self.nodes();
        proof {
            lemma_conforms_shift(nodes_c7, after_c7, slots_c7, Node::PrefixC7, 2, at_c7 + 1);
        }
        proof {
            lemma_conforms_prefix(after_c7, self.nodes(), after_c7[at_c7], Node::PrefixC7, 2);
        }
    }

    /// Cell builders and slices: first bytes 0xC8 to 0xD7.
    fn add_code_page_0_cell(&mut self)
        requires
            old(self).wf(),
            old(self).nodes().len() < 64,
            forall|b: int| 0xC8 <= b <= 0xD7 ==> old(self).slots()[b] == Handler::Unknown,
        ensures
            final(self).extends_root(*old(self), 0xC8, 0xD7, 2),
    {
        self.set(0xC8, Loader::Newc);
        self.set(0xC9, Loader::Endc);
        self.set(0xCA, Loader::Sti);
        self.set(0xCB, Loader::Stu);
        self.set(0xCC, Loader::Stref);
        self.set(0xCD, Loader::Endcst);
        self.set(0xCE, Loader::Stslice);
        let table_cf = Handlers::prefix_cf_table();
        let ghost (at_cf, slots_cf, nodes_cf) = (self.nodes().len() as int, table_cf.slots(), table_cf.nodes());
        self.add_subset(0xCF, table_cf);
        let ghost after_cf = self.nodes();
        proof {
            lemma_conforms_shift(nodes_cf, after_cf, slots_cf, Node::PrefixCF, 2, at_cf + 1);
        }
        self.set(0xD0, Loader::Ctos);
        self.set(0xD1, Loader::Ends);
        self.set(0xD2, Loader::Ldi);
        self.set(0xD3, Loader::Ldu);
        self.set(0xD4, Loader::Ldref);
        self.set(0xD5, Loader::Ldrefrtos);
        self.set(0xD6, Loader::Ldslice);
        let table_d7 = Handlers::prefix_d7_table();
        let ghost (at_d7, slots_d7, nodes_d7) = (self.nodes().len() as int, table_d7.slots(), table_d7.nodes());
        self.add_subset(0xD7, table_d7);
        let ghost after_d7 = self.nodes();
        proof {
            lemma_conforms_shift(nodes_d7, after_d7, slots_d7, Node::PrefixD7, 2, at_d7 + 1);
        }
        proof {
            lemma_conforms_prefix(after_cf, self.nodes(), after_cf[at_cf], Node::PrefixCF, 2);
            lemma_conforms_prefix(after_d7, self.nodes(), after_d7[at_d7], Node::PrefixD7, 2);
        }
    }

    /// Control flow: first bytes 0xD8 to 0xF1.
    fn add_code_page_0_control_flow(&mut self)
        requires
            old(self).wf(),
            old(self).nodes().len() < 64,
            forall|b: int| 0xD8 <= b <= 0xF1 ==> old(self).slots()[b] == Handler::Unknown,
        ensures
            final(self).extends_root(*old(self), 0xD8, 0xF1, 4),
    {
        self.add_control_flow_calls();
        let ghost halfway = *self;
        self.add_control_flow_loops();
        proof {
            assert forall|b: u8| 0xD8 <= b <= 0xE3 implies #[trigger] slot_conforms(self.nodes(), self.slots(), Node::Root, b, 3) by {
                lemma_slot_conforms_prefix(halfway.nodes(), self.nodes(), halfway.slots(), self.slots(), Node::Root, b, 3);
            }
        }
    }

    /// Calls, returns and conditionals: first bytes 0xD8 to 0xE3.
    fn add_control_flow_calls(&mut self)
        requires
            old(self).wf(),
            old(self).nodes().len() < 128,
            forall|b: int| 0xD8 <= b <= 0xE3 ==> old(self).slots()[b] == Handler::Unknown,
        ensures
            final(self).extends_root(*old(self), 0xD8, 0xE3, 2),
    {
        self.set(0xD8, Loader::Callx);
        self.set(0xD9, Loader::Jmpx);
        self.set(0xDA, Loader::Callxargs);
        let table_db = Handlers::prefix_db_table();
        let ghost (at_db, slots_db, nodes_db) = (self.nodes().len() as int, table_db.slots(), table_db.nodes());
        self.add_subset(0xDB, table_db);
        let ghost after_db = self.nodes();
        proof {
            lemma_conforms_shift(nodes_db, after_db, slots_db, Node::PrefixDB, 2, at_db + 1);
        }
        self.set(0xDE, Loader::If);
        self.set(0xDC, Loader::Ifret);
        self.set(0xDD, Loader::Ifnotret);
        self.set(0xDF, Loader::Ifnot);
        self.set(0xE0, Loader::Ifjmp);
        self.set(0xE1, Loader::Ifnotjmp);
        self.set(0xE2, Loader::Ifelse);
        let table_e3 = Handlers::prefix_e3_table();
        let ghost (at_e3, slots_e3, nodes_e3) = (self.nodes().len() as int, table_e3.slots(), table_e3.nodes());
        self.add_subset(0xE3, table_e3);
        let ghost after_e3 = self.nodes();
        proof {
            lemma_conforms_shift(nodes_e3, after_e3, slots_e3, Node::PrefixE3, 2, at_e3 + 1);
        }
        proof {
            lemma_conforms_prefix(after_db, self.nodes(), after_db[at_db], Node::PrefixDB, 2);
            lemma_conforms_prefix(after_e3, self.nodes(), after_e3[at_e3], Node::PrefixE3, 2);
        }
    }

    /// Loops, continuations and calls by index: first bytes 0xE4 to 0xF1.
    fn add_control_flow_loops(&mut self)
        requires
            old(self).wf(),
            old(self).nodes().len() < 128,
            forall|b: int| 0xE4 <= b <= 0xF1 ==> old(self).slots()[b] == Handler::Unknown,
        ensures
            final(self).extends_root(*old(self), 0xE4, 0xF1, 2),
    {
        self.set(0xE4, Loader::Repeat);
        self.set(0xE5, Loader::Repeatend);
        self.set(0xE6, Loader::Until);
        self.set(0xE7, Loader::Untilend);
        self.set(0xE8, Loader::While);
        self.set(0xE9, Loader::Whileend);
        self.set(0xEA, Loader::Again);
        self.set(0xEB, Loader::Againend);
        self.set(0xEC, Loader::Setcontargs);
        let table_ed = Handlers::prefix_ed_table();
        let ghost (at_ed, slots_ed, nodes_ed) = (self.nodes().len() as int, table_ed.slots(), table_ed.nodes());
        self.add_subset(0xED, table_ed);
        let ghost after_ed = self.nodes();
        proof {
            lemma_conforms_shift(nodes_ed, after_ed, slots_ed, Node::PrefixED, 2, at_ed + 1);
        }
        self.set(0xEE, Loader::Blessargs);
        self.set(0xF0, Loader::CallShort);
        let table_f1 = Handlers::prefix_f1_table();
        let ghost (at_f1, slots_f1, nodes_f1) = (self.nodes().len() as int, table_f1.slots(), table_f1.nodes());
        self.add_subset(0xF1, table_f1);
        let ghost after_f1 = self.nodes();
        proof {
            lemma_conforms_shift(nodes_f1, after_f1, slots_f1, Node::PrefixF1, 2, at_f1 + 1);
        }
        proof {
            lemma_conforms_prefix(after_ed, self.nodes(), after_ed[at_ed], Node::PrefixED, 2);
            lemma_conforms_prefix(after_f1, self.nodes(), after_f1[at_f1], Node::PrefixF1, 2);
        }
    }

    /// Exceptions: first bytes 0xF2 to 0xF3.
    fn add_code_page_0_exceptions(&mut self)
        requires
            old(self).wf(),
            old(self).nodes().len() < 64,
            forall|b: int| 0xF2 <= b <= 0xF3 ==> old(self).slots()[b] == Handler::Unknown,
        ensures
            final(self).extends_root(*old(self), 0xF2, 0xF3, 1),
    {
        let table_f2 = Handlers::prefix_f2_table();
        let ghost (at_f2, slots_f2, nodes_f2) = (self.nodes().len() as int, table_f2.slots(), table_f2.nodes());
        self.add_subset(0xF2, table_f2);
        let ghost after_f2 = self.nodes();
        proof {
            lemma_conforms_shift(nodes_f2, after_f2, slots_f2, Node::PrefixF2, 2, at_f2 + 1);
        }
        self.set(0xF3, Loader::Tryargs);
        proof {
            lemma_conforms_prefix(after_f2, self.nodes(), after_f2[at_f2], Node::PrefixF2, 2);
        }
    }

    /// Dictionaries: first bytes 0xF4 to 0xF4.
    fn add_code_page_0_dictionaries(&mut self)
        requires
            old(self).wf(),
            old(self).nodes().len() < 64,
            forall|b: int| 0xF4 <= b <= 0xF4 ==> old(self).slots()[b] == Handler::Unknown,
        ensures
            final(self).extends_root(*old(self), 0xF4, 0xF4, 1),
    {
        let table_f4 = Handlers::prefix_f4_table();
        let ghost (at_f4, slots_f4, nodes_f4) = (self.nodes().len() as int, table_f4.slots(), table_f4.nodes());
        self.add_subset(0xF4, table_f4);
        let ghost after_f4 = self.nodes();
        proof {
            lemma_conforms_shift(nodes_f4, after_f4, slots_f4, Node::PrefixF4, 2, at_f4 + 1);
        }
        proof {
            lemma_conforms_prefix(after_f4, self.nodes(), after_f4[at_f4], Node::PrefixF4, 2);
        }
    }

    /// Gas, random numbers and configuration: first bytes 0xF8 to 0xF8.
    fn add_code_page_0_gas_rand_config(&mut self)
        requires
            old(self).wf(),
            old(self).nodes().len() < 64,
            forall|b: int| 0xF8 <= b <= 0xF8 ==> old(self).slots()[b] == Handler::Unknown,
        ensures
            final(self).extends_root(*old(self), 0xF8, 0xF8, 1),
    {
        let table_f8 = Handlers::prefix_f8_table();
        let ghost (at_f8, slots_f8, nodes_f8) = (self.nodes().len() as int, table_f8.slots(), table_f8.nodes());
        self.add_subset(0xF8, table_f8);
        let ghost after_f8 = self.nodes();
        proof {
            lemma_conforms_shift(nodes_f8, after_f8, slots_f8, Node::PrefixF8, 2, at_f8 + 1);
        }
        proof {
            lemma_conforms_prefix(after_f8, self.nodes(), after_f8[at_f8], Node::PrefixF8, 2);
        }
    }

    /// Blockchain-specific operations: first bytes 0xFA to 0xFB.
    fn add_code_page_0_blockchain(&mut self)
        requires
            old(self).wf(),
            old(self).nodes().len() < 64,
            forall|b: int| 0xFA <= b <= 0xFB ==> old(self).slots()[b] == Handler::Unknown,
        ensures
            final(self).extends_root(*old(self), 0xFA, 0xFB, 2),
    {
        let table_fa = Handlers::prefix_fa_table();
        let ghost (at_fa, slots_fa, nodes_fa) = (self.nodes().len() as int, table_fa.slots(), table_fa.nodes());
        self.add_subset(0xFA, table_fa);
        let ghost after_fa = self.nodes();
        proof {
            lemma_conforms_shift(nodes_fa, after_fa, slots_fa, Node::PrefixFA, 2, at_fa + 1);
        }
        let table_fb = Handlers::prefix_fb_table();
        let ghost (at_fb, slots_fb, nodes_fb) = (self.nodes().len() as int, table_fb.slots(), table_fb.nodes());
        self.add_subset(0xFB, table_fb);
        let ghost after_fb = self.nodes();
        proof {
            lemma_conforms_shift(nodes_fb, after_fb, slots_fb, Node::PrefixFB, 2, at_fb + 1);
        }
        proof {
            lemma_conforms_prefix(after_fa, self.nodes(), after_fa[at_fa], Node::PrefixFA, 2);
            lemma_conforms_prefix(after_fb, self.nodes(), after_fb[at_fb], Node::PrefixFB, 2);
        }
    }

    /// Hashes and signatures: first bytes 0xF9 to 0xF9.
    fn add_code_page_0_crypto(&mut self)
        requires
            old(self).wf(),
            old(self).nodes().len() < 64,
            forall|b: int| 0xF9 <= b <= 0xF9 ==> old(self).slots()[b] == Handler::Unknown,
        ensures
            final(self).extends_root(*old(self), 0xF9, 0xF9, 1),
    {
        let table_f9 = Handlers::prefix_f9_table();
        let ghost (at_f9, slots_f9, nodes_f9) = (self.nodes().len() as int, table_f9.slots(), table_f9.nodes());
        self.add_subset(0xF9, table_f9);
        let ghost after_f9 = self.nodes();
        proof {
            lemma_conforms_shift(nodes_f9, after_f9, slots_f9, Node::PrefixF9, 2, at_f9 + 1);
        }
        proof {
            lemma_conforms_prefix(after_f9, self.nodes(), after_f9[at_f9], Node::PrefixF9, 2);
        }
    }

    /// Debugging: first bytes 0xFE to 0xFE.
    fn add_code_page_0_debug(&mut self)
        requires
            old(self).wf(),
            old(self).nodes().len() < 64,
            forall|b: int| 0xFE <= b <= 0xFE ==> old(self).slots()[b] == Handler::Unknown,
        ensures
            final(self).extends_root(*old(self), 0xFE, 0xFE, 1),
    {
        let table_fe = Handlers::prefix_fe_table();
        let ghost (at_fe, slots_fe, nodes_fe) = (self.nodes().len() as int, table_fe.slots(), table_fe.nodes());
        self.add_subset(0xFE, table_fe);
        let ghost after_fe = self.nodes();
        proof {
            lemma_conforms_shift(nodes_fe, after_fe, slots_fe, Node::PrefixFE, 2, at_fe + 1);
        }
        proof {
            lemma_conforms_prefix(after_fe, self.nodes(), after_fe[at_fe], Node::PrefixFE, 2);
        }
    }

    /// The table reached through the opcode prefix 0x54.
    fn prefix_54_table() -> (r: Handlers)
        ensures
            r.wf(),
            r.nodes().len() == 0,
            conforms_from(r.nodes(), r.slots(), Node::Prefix54, 2),
    {
        let mut table = Handlers::new();
        table.set_range(0x00..0x10, Loader::Xchg3);
        table.set_range(0x10..0x20, Loader::Xc2pu);
        table.set_range(0x20..0x30, Loader::Xcpuxc);
        table.set_range(0x30..0x40, Loader::Xcpu2);
        table.set_range(0x40..0x50, Loader::Puxc2);
        table.set_range(0x50..0x60, Loader::Puxcpu);
        table.set_range(0x60..0x70, Loader::Pu2xc);
        table.set_range(0x70..0x80, Loader::Push3);
        table
    }

    /// The table reached through the opcode prefix 0x5F.
    fn prefix_5f_table() -> (r: Handlers)
        ensures
            r.wf(),
            r.nodes().len() == 0,
            conforms_from(r.nodes(), r.slots(), Node::Prefix5F, 2),
    {
        let mut table = Handlers::new();
        table.set_range(0x00..0x10, Loader::Blkdrop);
        table.set_range(0x10..0xFF, Loader::Blkpush);
        table.set(0xFF, Loader::Blkpush);
        table
    }

    /// The table reached through the opcode prefix 0x6C.
    fn prefix_6c_table() -> (r: Handlers)
        ensures
            r.wf(),
            r.nodes().len() == 0,
            conforms_from(r.nodes(), r.slots(), Node::Prefix6C, 2),
    {
        let mut table = Handlers::new();
        table.set_range(0x10..0xFF, Loader::Blkdrop2);
        table.set(0xFF, Loader::Blkdrop2);
        table
    }

    /// The table reached through the opcode prefix 0x6F.
    fn prefix_6f_table() -> (r: Handlers)
        ensures
            r.wf(),
            r.nodes().len() == 0,
            conforms_from(r.nodes(), r.slots(), Node::Prefix6F, 2),
    {
        let mut table = Handlers::new();
        assert(table.slots() =~= filled(Node::Prefix6F, 0));
        Handlers::prefix_6f_part_00(&mut table);
        Handlers::prefix_6f_part_a2(&mut table);
        table
    }

    /// Registers bytes 0x00 to 0xA1 of the table reached through 0x6F.
    fn prefix_6f_part_00(table: &mut Handlers)
        requires
            old(table).wf(),
            old(table).nodes().len() == 0,
            old(table).slots() == filled(Node::Prefix6F, 0x00),
        ensures
            final(table).wf(),
            final(table).nodes().len() == 0,
            final(table).slots() == filled(Node::Prefix6F, 0xA2),
    {
        table.set_range(0x00..0x10, Loader::TupleCreate);
        table.set_range(0x10..0x20, Loader::TupleIndex);
        table.set_range(0x20..0x30, Loader::TupleUn);
        table.set_range(0x30..0x40, Loader::TupleUnpackfirst);
        table.set_range(0x40..0x50, Loader::TupleExplode);
        table.set_range(0x50..0x60, Loader::TupleSetindex);
        table.set_range(0x60..0x70, Loader::TupleIndexQuiet);
        table.set_range(0x70..0x80, Loader::TupleSetindexQuiet);
        table.set(0x80, Loader::TupleCreatevar);
        table.set(0x81, Loader::TupleIndexvar);
        table.set(0x82, Loader::TupleUntuplevar);
        table.set(0x83, Loader::TupleUnpackfirstvar);
        table.set(0x84, Loader::TupleExplodevar);
        table.set(0x85, Loader::TupleSetindexvar);
        table.set(0x86, Loader::TupleIndexvarQuiet);
        table.set(0x87, Loader::TupleSetindexvarQuiet);
        table.set(0x88, Loader::TupleLen);
        table.set(0x89, Loader::TupleLenQuiet);
        table.set(0x8A, Loader::Istuple);
        table.set(0x8B, Loader::TupleLast);
        table.set(0x8C, Loader::TuplePush);
        table.set(0x8D, Loader::TuplePop);
        table.set(0xA0, Loader::Nullswapif);
        table.set(0xA1, Loader::Nullswapifnot);
        assert(table.slots() =~= filled(Node::Prefix6F, 0xA2));
    }

    /// Registers bytes 0xA2 to 0xFF of the table reached through 0x6F.
    fn prefix_6f_part_a2(table: &mut Handlers)
        requires
            old(table).wf(),
            old(table).nodes().len() == 0,
            old(table).slots() == filled(Node::Prefix6F, 0xA2),
        ensures
            final(table).wf(),
            final(table).nodes().len() == 0,
            final(table).slots() == filled(Node::Prefix6F, 0x100),
    {
        table.set(0xA2, Loader::Nullrotrif);
        table.set(0xA3, Loader::Nullrotrifnot);
        table.set(0xA4, Loader::Nullswapif2);
        table.set(0xA5, Loader::Nullswapifnot2);
        table.set(0xA6, Loader::Nullrotrif2);
        table.set(0xA7, Loader::Nullrotrifnot2);
        table.set_range(0xB0..0xC0, Loader::TupleIndex2);
        table.set_range(0xC0..0xFF, Loader::TupleIndex3);
        table.set(0xFF, Loader::TupleIndex3);
        assert(table.slots() =~= filled(Node::Prefix6F, 0x100));
    }

    /// The table reached through the opcode prefix 0x83.
    fn prefix_83_table() -> (r: Handlers)
        ensures
            r.wf(),
            r.nodes().len() == 0,
            conforms_from(r.nodes(), r.slots(), Node::Prefix83, 2),
    {
        let mut table = Handlers::new();
        table.set_range(0x00..0xFF, Loader::Pushpow2);
        table.set(0xFF, Loader::Pushnan);
        table
    }

    /// The table reached through the opcode prefix 0xB6.
    fn prefix_b6_table() -> (r: Handlers)
        ensures
            r.wf(),
            r.nodes().len() == 0,
            conforms_from(r.nodes(), r.slots(), Node::PrefixB6, 2),
    {
        let mut table = Handlers::new();
        table.set(0x00, Loader::Fitsx(Variant::Signaling));
        table.set(0x01, Loader::Ufitsx(Variant::Signaling));
        table.set(0x02, Loader::Bitsize(Variant::Signaling));
        table.set(0x03, Loader::Ubitsize(Variant::Signaling));
        table.set(0x08, Loader::Min(Variant::Signaling));
        table.set(0x09, Loader::Max(Variant::Signaling));
        table.set(0x0A, Loader::Minmax(Variant::Signaling));
        table.set(0x0B, Loader::Abs(Variant::Signaling));
        table
    }

    /// The table reached through the opcode prefix 0xB7 0xB6.
    fn prefix_b7b6_table() -> (r: Handlers)
        ensures
            r.wf(),
            r.nodes().len() == 0,
            conforms_from(r.nodes(), r.slots(), Node::PrefixB7B6, 1),
    {
        let mut table = Handlers::new();
        table.set(0x00, Loader::Fitsx(Variant::Quiet));
        table.set(0x01, Loader::Ufitsx(Variant::Quiet));
        table.set(0x02, Loader::Bitsize(Variant::Quiet));
        table.set(0x03, Loader::Ubitsize(Variant::Quiet));
        table.set(0x08, Loader::Min(Variant::Quiet));
        table.set(0x09, Loader::Max(Variant::Quiet));
        table.set(0x0A, Loader::Minmax(Variant::Quiet));
        table.set(0x0B, Loader::Abs(Variant::Quiet));
        table
    }

    /// The table reached through the opcode prefix 0xB7.
    fn prefix_b7_table() -> (r: Handlers)
        ensures
            r.wf(),
            r.nodes().len() == 1,
            conforms_from(r.nodes(), r.slots(), Node::PrefixB7, 2),
    {
        let mut table = Handlers::new();
        table.set(0xA0, Loader::Add(Variant::Quiet));
        table.set(0xA1, Loader::Sub(Variant::Quiet));
        table.set(0xA2, Loader::Subr(Variant::Quiet));
        table.set(0xA3, Loader::Negate(Variant::Quiet));
        table.set(0xA4, Loader::Inc(Variant::Quiet));
        table.set(0xA5, Loader::Dec(Variant::Quiet));
        table.set(0xA6, Loader::Addconst(Variant::Quiet));
        table.set(0xA7, Loader::Mulconst(Variant::Quiet));
        table.set(0xA8, Loader::Mul(Variant::Quiet));
        table.set(0xA9, Loader::Divmod(Variant::Quiet));
        table.set(0xAA, Loader::Lshift(Variant::Quiet));
        table.set(0xAB, Loader::Rshift(Variant::Quiet));
        table.set(0xAC, Loader::Lshift(Variant::Quiet));
        table.set(0xAD, Loader::Rshift(Variant::Quiet));
        table.set(0xAE, Loader::Pow2(Variant::Quiet));
        table.set(0xB0, Loader::And(Variant::Quiet));
        table.set(0xB1, Loader::Or(Variant::Quiet));
        table.set(0xB2, Loader::Xor(Variant::Quiet));
        table.set(0xB3, Loader::Not(Variant::Quiet));
        table.set(0xB4, Loader::Fits(Variant::Quiet));
        table.set(0xB5, Loader::Ufits(Variant::Quiet));
        let table_b7b6 = Handlers::prefix_b7b6_table();
        let ghost (at_b7b6, slots_b7b6, nodes_b7b6) = (table.nodes().len() as int, table_b7b6.slots(), table_b7b6.nodes());
        table.add_subset(0xB6, table_b7b6);
        let ghost after_b7b6 = table.nodes();
        proof {
            lemma_conforms_shift(nodes_b7b6, after_b7b6, slots_b7b6, Node::PrefixB7B6, 1, at_b7b6 + 1);
        }
        table.set(0xB8, Loader::Sgn(Variant::Quiet));
        table.set(0xB9, Loader::Less(Variant::Quiet));
        table.set(0xBA, Loader::Equal(Variant::Quiet));
        table.set(0xBB, Loader::Leq(Variant::Quiet));
        table.set(0xBC, Loader::Greater(Variant::Quiet));
        table.set(0xBD, Loader::Neq(Variant::Quiet));
        table.set(0xBE, Loader::Geq(Variant::Quiet));
        table.set(0xBF, Loader::Cmp(Variant::Quiet));
        table.set(0xC0, Loader::Eqint(Variant::Quiet));
        table.set(0xC1, Loader::Lessint(Variant::Quiet));
        table.set(0xC2, Loader::Gtint(Variant::Quiet));
        table.set(0xC3, Loader::Neqint(Variant::Quiet));
        proof {
            lemma_conforms_prefix(after_b7b6, table.nodes(), after_b7b6[at_b7b6], Node::PrefixB7B6, 1);
        }
        table
    }

    /// The table reached through the opcode prefix 0xC7.
    fn prefix_c7_table() -> (r: Handlers)
        ensures
            r.wf(),
            r.nodes().len() == 0,
            conforms_from(r.nodes(), r.slots(), Node::PrefixC7, 2),
    {
        let mut table = Handlers::new();
        table.set(0x00, Loader::Sempty);
        table.set(0x01, Loader::Sdempty);
        table.set(0x02, Loader::Srempty);
        table.set(0x03, Loader::Sdfirst);
        table.set(0x04, Loader::Sdlexcmp);
        table.set(0x05, Loader::Sdeq);
        table.set(0x08, Loader::Sdpfx);
        table.set(0x09, Loader::Sdpfxrev);
        table.set(0x0A, Loader::Sdppfx);
        table.set(0x0B, Loader::Sdppfxrev);
        table.set(0x0C, Loader::Sdsfx);
        table.set(0x0D, Loader::Sdsfxrev);
        table.set(0x0E, Loader::Sdpsfx);
        table.set(0x0F, Loader::Sdpsfxrev);
        table.set(0x10, Loader::Sdcntlead0);
        table.set(0x11, Loader::Sdcntlead1);
        table.set(0x12, Loader::Sdcnttrail0);
        table.set(0x13, Loader::Sdcnttrail1);
        table
    }

    /// The table reached through the opcode prefix 0xCF.
    fn prefix_cf_table() -> (r: Handlers)
        ensures
            r.wf(),
            r.nodes().len() == 0,
            conforms_from(r.nodes(), r.slots(), Node::PrefixCF, 2),
    {
        let mut table = Handlers::new();
        assert(table.slots() =~= filled(Node::PrefixCF, 0));
        Handlers::prefix_cf_part_00(&mut table);
        Handlers::prefix_cf_part_18(&mut table);
        Handlers::prefix_cf_part_3a(&mut table);
        table
    }

    /// Registers bytes 0x00 to 0x17 of the table reached through 0xCF.
    fn prefix_cf_part_00(table: &mut Handlers)
        requires
            old(table).wf(),
            old(table).nodes().len() == 0,
            old(table).slots() == filled(Node::PrefixCF, 0x00),
        ensures
            final(table).wf(),
            final(table).nodes().len() == 0,
            final(table).slots() == filled(Node::PrefixCF, 0x18),
    {
        table.set(0x00, Loader::Stix);
        table.set(0x01, Loader::Stux);
        table.set(0x02, Loader::Stixr);
        table.set(0x03, Loader::Stuxr);
        table.set(0x04, Loader::Stixq);
        table.set(0x05, Loader::Stuxq);
        table.set(0x06, Loader::Stixrq);
        table.set(0x07, Loader::Stuxrq);
        table.set(0x08, Loader::Sti);
        table.set(0x09, Loader::Stu);
        table.set(0x0A, Loader::Stir);
        table.set(0x0B, Loader::Stur);
        table.set(0x0C, Loader::Stiq);
        table.set(0x0D, Loader::Stuq);
        table.set(0x0E, Loader::Stirq);
        table.set(0x0F, Loader::Sturq);
        table.set(0x10, Loader::Stref);
        table.set(0x11, Loader::Stbref);
        table.set(0x12, Loader::Stslice);
        table.set(0x13, Loader::Stb);
        table.set(0x14, Loader::Strefr);
        table.set(0x15, Loader::Endcst);
        table.set(0x16, Loader::Stslicer);
        table.set(0x17, Loader::Stbr);
        assert(table.slots() =~= filled(Node::PrefixCF, 0x18));
    }

    /// Registers bytes 0x18 to 0x39 of the table reached through 0xCF.
    fn prefix_cf_part_18(table: &mut Handlers)
        requires
            old(table).wf(),
            old(table).nodes().len() == 0,
            old(table).slots() == filled(Node::PrefixCF, 0x18),
        ensures
            final(table).wf(),
            final(table).nodes().len() == 0,
            final(table).slots() == filled(Node::PrefixCF, 0x3A),
    {
        table.set(0x18, Loader::Strefq);
        table.set(0x19, Loader::Stbrefq);
        table.set(0x1A, Loader::Stsliceq);
        table.set(0x1B, Loader::Stbq);
        table.set(0x1C, Loader::Strefrq);
        table.set(0x1D, Loader::Stbrefrq);
        table.set(0x1E, Loader::Stslicerq);
        table.set(0x1F, Loader::Stbrq);
        table.set(0x20, Loader::Strefconst);
        table.set(0x21, Loader::Stref2const);
        table.set(0x23, Loader::Endxc);
        table.set(0x28, Loader::Stile4);
        table.set(0x29, Loader::Stule4);
        table.set(0x2A, Loader::Stile8);
        table.set(0x2B, Loader::Stule8);
        table.set(0x30, Loader::Bdepth);
        table.set(0x31, Loader::Bbits);
        table.set(0x32, Loader::Brefs);
        table.set(0x33, Loader::Bbitrefs);
        table.set(0x35, Loader::Brembits);
        table.set(0x36, Loader::Bremrefs);
        table.set(0x37, Loader::Brembitrefs);
        table.set(0x38, Loader::BchkbitsShort);
        table.set(0x39, Loader::BchkbitsLong);
        assert(table.slots() =~= filled(Node::PrefixCF, 0x3A));
    }

    /// Registers bytes 0x3A to 0xFF of the table reached through 0xCF.
    fn prefix_cf_part_3a(table: &mut Handlers)
        requires
            old(table).wf(),
            old(table).nodes().len() == 0,
            old(table).slots() == filled(Node::PrefixCF, 0x3A),
        ensures
            final(table).wf(),
            final(table).nodes().len() == 0,
            final(table).slots() == filled(Node::PrefixCF, 0x100),
    {
        table.set(0x3A, Loader::Bchkrefs);
        table.set(0x3B, Loader::Bchkbitrefs);
        table.set(0x3C, Loader::BchkbitsqShort);
        table.set(0x3D, Loader::BchkbitsqLong);
        table.set(0x3E, Loader::Bchkrefsq);
        table.set(0x3F, Loader::Bchkbitrefsq);
        table.set(0x40, Loader::Stzeroes);
        table.set(0x41, Loader::Stones);
        table.set(0x42, Loader::Stsame);
        table.set_range(0x80..0xFF, Loader::Stsliceconst);
        table.set(0xFF, Loader::Stsliceconst);
        assert(table.slots() =~= filled(Node::PrefixCF, 0x100));
    }

    /// The table reached through the opcode prefix 0xD7.
    fn prefix_d7_table() -> (r: Handlers)
        ensures
            r.wf(),
            r.nodes().len() == 0,
            conforms_from(r.nodes(), r.slots(), Node::PrefixD7, 2),
    {
        let mut table = Handlers::new();
        assert(table.slots() =~= filled(Node::PrefixD7, 0));
        Handlers::prefix_d7_part_00(&mut table);
        Handlers::prefix_d7_part_1f(&mut table);
        Handlers::prefix_d7_part_46(&mut table);
        Handlers::prefix_d7_part_60(&mut table);
        table
    }

    /// Registers bytes 0x00 to 0x1E of the table reached through 0xD7.
    fn prefix_d7_part_00(table: &mut Handlers)
        requires
            old(table).wf(),
            old(table).nodes().len() == 0,
            old(table).slots() == filled(Node::PrefixD7, 0x00),
        ensures
            final(table).wf(),
            final(table).nodes().len() == 0,
            final(table).slots() == filled(Node::PrefixD7, 0x1F),
    {
        table.set(0x00, Loader::Ldix);
        table.set(0x01, Loader::Ldux);
        table.set(0x02, Loader::Pldix);
        table.set(0x03, Loader::Pldux);
        table.set(0x04, Loader::Ldixq);
        table.set(0x05, Loader::Lduxq);
        table.set(0x06, Loader::Pldixq);
        table.set(0x07, Loader::Plduxq);
        table.set(0x08, Loader::Ldi);
        table.set(0x09, Loader::Ldu);
        table.set(0x0A, Loader::Pldi);
        table.set(0x0B, Loader::Pldu);
        table.set(0x0C, Loader::Ldiq);
        table.set(0x0D, Loader::Lduq);
        table.set(0x0E, Loader::Pldiq);
        table.set(0x0F, Loader::Plduq);
        table.set_range(0x10..0x18, Loader::Plduz);
        table.set(0x18, Loader::Ldslicex);
        table.set(0x19, Loader::Pldslicex);
        table.set(0x1A, Loader::Ldslicexq);
        table.set(0x1B, Loader::Pldslicexq);
        table.set(0x1C, Loader::Ldslice);
        table.set(0x1D, Loader::Pldslice);
        table.set(0x1E, Loader::Ldsliceq);
        assert(table.slots() =~= filled(Node::PrefixD7, 0x1F));
    }

    /// Registers bytes 0x1F to 0x45 of the table reached through 0xD7.
    fn prefix_d7_part_1f(table: &mut Handlers)
        requires
            old(table).wf(),
            old(table).nodes().len() == 0,
            old(table).slots() == filled(Node::PrefixD7, 0x1F),
        ensures
            final(table).wf(),
            final(table).nodes().len() == 0,
            final(table).slots() == filled(Node::PrefixD7, 0x46),
    {
        table.set(0x1F, Loader::Pldsliceq);
        table.set(0x20, Loader::Pldslicex);
        table.set(0x21, Loader::Sdskipfirst);
        table.set(0x22, Loader::Sdcutlast);
        table.set(0x23, Loader::Sdskiplast);
        table.set(0x24, Loader::Sdsubstr);
        table.set(0x26, Loader::Sdbeginsx);
        table.set(0x27, Loader::Sdbeginsxq);
        table.set_range(0x28..0x2C, Loader::Sdbegins);
        table.set_range(0x2C..0x30, Loader::Sdbeginsq);
        table.set(0x30, Loader::Scutfirst);
        table.set(0x31, Loader::Sskipfirst);
        table.set(0x32, Loader::Scutlast);
        table.set(0x33, Loader::Sskiplast);
        table.set(0x34, Loader::Subslice);
        table.set(0x36, Loader::Split);
        table.set(0x37, Loader::Splitq);
        table.set(0x39, Loader::Xctos);
        table.set(0x3A, Loader::Xload);
        table.set(0x3B, Loader::Xloadq);
        table.set(0x41, Loader::Schkbits);
        table.set(0x42, Loader::Schkrefs);
        table.set(0x43, Loader::Schkbitrefs);
        table.set(0x45, Loader::Schkbitsq);
        assert(table.slots() =~= filled(Node::PrefixD7, 0x46));
    }

    /// Registers bytes 0x46 to 0x5F of the table reached through 0xD7.
    fn prefix_d7_part_46(table: &mut Handlers)
        requires
            old(table).wf(),
            old(table).nodes().len() == 0,
            old(table).slots() == filled(Node::PrefixD7, 0x46),
        ensures
            final(table).wf(),
            final(table).nodes().len() == 0,
            final(table).slots() == filled(Node::PrefixD7, 0x60),
    {
        table.set(0x46, Loader::Schkrefsq);
        table.set(0x47, Loader::Schkbitrefsq);
        table.set(0x48, Loader::Pldrefvar);
        table.set(0x49, Loader::Sbits);
        table.set(0x4A, Loader::Srefs);
        table.set(0x4B, Loader::Sbitrefs);
        table.set(0x4C, Loader::Pldref);
        table.set_range(0x4D..0x50, Loader::Pldrefidx);
        table.set(0x50, Loader::Ldile4);
        table.set(0x51, Loader::Ldule4);
        table.set(0x52, Loader::Ldile8);
        table.set(0x53, Loader::Ldule8);
        table.set(0x54, Loader::Pldile4);
        table.set(0x55, Loader::Pldule4);
        table.set(0x56, Loader::Pldile8);
        table.set(0x57, Loader::Pldule8);
        table.set(0x58, Loader::Ldile4q);
        table.set(0x59, Loader::Ldule4q);
        table.set(0x5A, Loader::Ldile8q);
        table.set(0x5B, Loader::Ldule8q);
        table.set(0x5C, Loader::Pldile4q);
        table.set(0x5D, Loader::Pldule4q);
        table.set(0x5E, Loader::Pldile8q);
        table.set(0x5F, Loader::Pldule8q);
        assert(table.slots() =~= filled(Node::PrefixD7, 0x60));
    }

    /// Registers bytes 0x60 to 0xFF of the table reached through 0xD7.
    fn prefix_d7_part_60(table: &mut Handlers)
        requires
            old(table).wf(),
            old(table).nodes().len() == 0,
            old(table).slots() == filled(Node::PrefixD7, 0x60),
        ensures
            final(table).wf(),
            final(table).nodes().len() == 0,
            final(table).slots() == filled(Node::PrefixD7, 0x100),
    {
        table.set(0x60, Loader::Ldzeroes);
        table.set(0x61, Loader::Ldones);
        table.set(0x62, Loader::Ldsame);
        table.set(0x64, Loader::Sdepth);
        table.set(0x65, Loader::Cdepth);
        assert(table.slots() =~= filled(Node::PrefixD7, 0x100));
    }

    /// The table reached through the opcode prefix 0xDB.
    fn prefix_db_table() -> (r: Handlers)
        ensures
            r.wf(),
            r.nodes().len() == 0,
            conforms_from(r.nodes(), r.slots(), Node::PrefixDB, 2),
    {
        let mut table = Handlers::new();
        table.set_range(0x00..0x10, Loader::Callxargs);
        table.set_range(0x10..0x20, Loader::Jmpxargs);
        table.set_range(0x20..0x30, Loader::Retargs);
        table.set(0x30, Loader::Ret);
        table.set(0x31, Loader::Retalt);
        table.set(0x32, Loader::Retbool);
        table.set(0x34, Loader::Callcc);
        table.set(0x35, Loader::Jmpxdata);
        table.set(0x36, Loader::Callccargs);
        table.set(0x38, Loader::Callxva);
        table.set(0x39, Loader::Retva);
        table.set(0x3A, Loader::Jmpxva);
        table.set(0x3B, Loader::Callccva);
        table.set(0x3C, Loader::Callref);
        table.set(0x3D, Loader::Jmpref);
        table.set(0x3E, Loader::Jmprefdata);
        table.set(0x3F, Loader::Retdata);
        table
    }

    /// The table reached through the opcode prefix 0xE3.
    fn prefix_e3_table() -> (r: Handlers)
        ensures
            r.wf(),
            r.nodes().len() == 0,
            conforms_from(r.nodes(), r.slots(), Node::PrefixE3, 2),
    {
        let mut table = Handlers::new();
        table.set(0x00, Loader::Ifref);
        table.set(0x01, Loader::Ifnotref);
        table.set(0x02, Loader::Ifjmpref);
        table.set(0x03, Loader::Ifnotjmpref);
        table.set(0x04, Loader::Condsel);
        table.set(0x05, Loader::Condselchk);
        table.set(0x08, Loader::Ifretalt);
        table.set(0x09, Loader::Ifnotretalt);
        table.set(0x0D, Loader::Ifrefelse);
        table.set(0x0E, Loader::Ifelseref);
        table.set(0x0F, Loader::Ifrefelseref);
        table.set(0x14, Loader::RepeatBreak);
        table.set(0x15, Loader::RepeatendBreak);
        table.set(0x16, Loader::UntilBreak);
        table.set(0x17, Loader::UntilendBreak);
        table.set(0x18, Loader::WhileBreak);
        table.set(0x19, Loader::WhileendBreak);
        table.set(0x1A, Loader::AgainBreak);
        table.set(0x1B, Loader::AgainendBreak);
        table.set_range(0x80..0xA0, Loader::Ifbitjmp);
        table.set_range(0xA0..0xC0, Loader::Ifnbitjmp);
        table.set_range(0xC0..0xE0, Loader::Ifbitjmpref);
        table.set_range(0xE0..0xFF, Loader::Ifnbitjmpref);
        table.set(0xFF, Loader::Ifnbitjmpref);
        table
    }

    /// The table reached through the opcode prefix 0xED.
    fn prefix_ed_table() -> (r: Handlers)
        ensures
            r.wf(),
            r.nodes().len() == 0,
            conforms_from(r.nodes(), r.slots(), Node::PrefixED, 2),
    {
        let mut table = Handlers::new();
        assert(table.slots() =~= filled(Node::PrefixED, 0));
        Handlers::prefix_ed_part_00(&mut table);
        Handlers::prefix_ed_part_f6(&mut table);
        table
    }

    /// Registers bytes 0x00 to 0xF5 of the table reached through 0xED.
    fn prefix_ed_part_00(table: &mut Handlers)
        requires
            old(table).wf(),
            old(table).nodes().len() == 0,
            old(table).slots() == filled(Node::PrefixED, 0x00),
        ensures
            final(table).wf(),
            final(table).nodes().len() == 0,
            final(table).slots() == filled(Node::PrefixED, 0xF6),
    {
        table.set_range(0x00..0x10, Loader::Returnargs);
        table.set(0x10, Loader::Returnva);
        table.set(0x11, Loader::Setcontva);
        table.set(0x12, Loader::Setnumva);
        table.set(0x1E, Loader::Bless);
        table.set(0x1F, Loader::Blessva);
        table.set_range(0x40..0x50, Loader::Pushctr);
        table.set_range(0x50..0x60, Loader::Popctr);
        table.set_range(0x60..0x70, Loader::Setcontctr);
        table.set_range(0x70..0x80, Loader::Setretctr);
        table.set_range(0x80..0x90, Loader::Setaltctr);
        table.set_range(0x90..0xA0, Loader::Popsave);
        table.set_range(0xA0..0xB0, Loader::Save);
        table.set_range(0xB0..0xC0, Loader::Savealt);
        table.set_range(0xC0..0xD0, Loader::Saveboth);
        table.set(0xE0, Loader::Pushctrx);
        table.set(0xE1, Loader::Popctrx);
        table.set(0xE2, Loader::Setcontctrx);
        table.set(0xF0, Loader::Compos);
        table.set(0xF1, Loader::Composalt);
        table.set(0xF2, Loader::Composboth);
        table.set(0xF3, Loader::Atexit);
        table.set(0xF4, Loader::Atexitalt);
        table.set(0xF5, Loader::Setexitalt);
        assert(table.slots() =~= filled(Node::PrefixED, 0xF6));
    }

    /// Registers bytes 0xF6 to 0xFF of the table reached through 0xED.
    fn prefix_ed_part_f6(table: &mut Handlers)
        requires
            old(table).wf(),
            old(table).nodes().len() == 0,
            old(table).slots() == filled(Node::PrefixED, 0xF6),
        ensures
            final(table).wf(),
            final(table).nodes().len() == 0,
            final(table).slots() == filled(Node::PrefixED, 0x100),
    {
        table.set(0xF6, Loader::Thenret);
        table.set(0xF7, Loader::Thenretalt);
        table.set(0xF8, Loader::Invert);
        table.set(0xF9, Loader::Booleval);
        table.set(0xFA, Loader::Samealt);
        table.set(0xFB, Loader::SamealtSave);
        assert(table.slots() =~= filled(Node::PrefixED, 0x100));
    }

    /// The table reached through the opcode prefix 0xF1.
    fn prefix_f1_table() -> (r: Handlers)
        ensures
            r.wf(),
            r.nodes().len() == 0,
            conforms_from(r.nodes(), r.slots(), Node::PrefixF1, 2),
    {
        let mut table = Handlers::new();
        table.set_range(0x00..0x40, Loader::CallLong);
        table.set_range(0x40..0x80, Loader::Jmp);
        table.set_range(0x80..0xC0, Loader::Prepare);
        table
    }

    /// The table reached through the opcode prefix 0xF2.
    fn prefix_f2_table() -> (r: Handlers)
        ensures
            r.wf(),
            r.nodes().len() == 0,
            conforms_from(r.nodes(), r.slots(), Node::PrefixF2, 2),
    {
        let mut table = Handlers::new();
        table.set_range(0x00..0x40, Loader::ThrowShort);
        table.set_range(0x40..0x80, Loader::ThrowifShort);
        table.set_range(0x80..0xC0, Loader::ThrowifnotShort);
        table.set_range(0xC0..0xC8, Loader::ThrowLong);
        table.set_range(0xC8..0xD0, Loader::Throwarg);
        table.set_range(0xD0..0xD8, Loader::ThrowifLong);
        table.set_range(0xD8..0xE0, Loader::Throwargif);
        table.set_range(0xE0..0xE8, Loader::ThrowifnotLong);
        table.set_range(0xE8..0xF0, Loader::Throwargifnot);
        table.set(0xF0, Loader::Throwany);
        table.set(0xF1, Loader::Throwargany);
        table.set(0xF2, Loader::Throwanyif);
        table.set(0xF3, Loader::Throwarganyif);
        table.set(0xF4, Loader::Throwanyifnot);
        table.set(0xF5, Loader::Throwarganyifnot);
        table.set(0xFF, Loader::Try);
        table
    }

    /// The table reached through the opcode prefix 0xF4.
    fn prefix_f4_table() -> (r: Handlers)
        ensures
            r.wf(),
            r.nodes().len() == 0,
            conforms_from(r.nodes(), r.slots(), Node::PrefixF4, 2),
    {
        let mut table = Handlers::new();
        assert(table.slots() =~= filled(Node::PrefixF4, 0));
        Handlers::prefix_f4_part_00(&mut table);
        Handlers::prefix_f4_part_1e(&mut table);
        Handlers::prefix_f4_part_3e(&mut table);
        Handlers::prefix_f4_part_63(&mut table);
        Handlers::prefix_f4_part_7d(&mut table);
        Handlers::prefix_f4_part_9d(&mut table);
        table
    }

    /// Registers bytes 0x00 to 0x1D of the table reached through 0xF4.
    fn prefix_f4_part_00(table: &mut Handlers)
        requires
            old(table).wf(),
            old(table).nodes().len() == 0,
            old(table).slots() == filled(Node::PrefixF4, 0x00),
        ensures
            final(table).wf(),
            final(table).nodes().len() == 0,
            final(table).slots() == filled(Node::PrefixF4, 0x1E),
    {
        table.set(0x00, Loader::Stdict);
        table.set(0x01, Loader::Skipdict);
        table.set(0x02, Loader::Lddicts);
        table.set(0x03, Loader::Plddicts);
        table.set(0x04, Loader::Lddict);
        table.set(0x05, Loader::Plddict);
        table.set(0x06, Loader::Lddictq);
        table.set(0x07, Loader::Plddictq);
        table.set(0x0A, Loader::Dictget);
        table.set(0x0B, Loader::Dictgetref);
        table.set(0x0C, Loader::Dictiget);
        table.set(0x0D, Loader::Dictigetref);
        table.set(0x0E, Loader::Dictuget);
        table.set(0x0F, Loader::Dictugetref);
        table.set(0x12, Loader::Dictset);
        table.set(0x13, Loader::Dictsetref);
        table.set(0x14, Loader::Dictiset);
        table.set(0x15, Loader::Dictisetref);
        table.set(0x16, Loader::Dictuset);
        table.set(0x17, Loader::Dictusetref);
        table.set(0x1A, Loader::Dictsetget);
        table.set(0x1B, Loader::Dictsetgetref);
        table.set(0x1C, Loader::Dictisetget);
        table.set(0x1D, Loader::Dictisetgetref);
        assert(table.slots() =~= filled(Node::PrefixF4, 0x1E));
    }

    /// Registers bytes 0x1E to 0x3D of the table reached through 0xF4.
    fn prefix_f4_part_1e(table: &mut Handlers)
        requires
            old(table).wf(),
            old(table).nodes().len() == 0,
            old(table).slots() == filled(Node::PrefixF4, 0x1E),
        ensures
            final(table).wf(),
            final(table).nodes().len() == 0,
            final(table).slots() == filled(Node::PrefixF4, 0x3E),
    {
        table.set(0x1E, Loader::Dictusetget);
        table.set(0x1F, Loader::Dictusetgetref);
        table.set(0x22, Loader::Dictreplace);
        table.set(0x23, Loader::Dictreplaceref);
        table.set(0x24, Loader::Dictireplace);
        table.set(0x25, Loader::Dictireplaceref);
        table.set(0x26, Loader::Dictureplace);
        table.set(0x27, Loader::Dictureplaceref);
        table.set(0x2A, Loader::Dictreplaceget);
        table.set(0x2B, Loader::Dictreplacegetref);
        table.set(0x2C, Loader::Dictireplaceget);
        table.set(0x2D, Loader::Dictireplacegetref);
        table.set(0x2E, Loader::Dictureplaceget);
        table.set(0x2F, Loader::Dictureplacegetref);
        table.set(0x32, Loader::Dictadd);
        table.set(0x33, Loader::Dictaddref);
        table.set(0x34, Loader::Dictiadd);
        table.set(0x35, Loader::Dictiaddref);
        table.set(0x36, Loader::Dictuadd);
        table.set(0x37, Loader::Dictuaddref);
        table.set(0x3A, Loader::Dictaddget);
        table.set(0x3B, Loader::Dictaddgetref);
        table.set(0x3C, Loader::Dictiaddget);
        table.set(0x3D, Loader::Dictiaddgetref);
        assert(table.slots() =~= filled(Node::PrefixF4, 0x3E));
    }

    /// Registers bytes 0x3E to 0x62 of the table reached through 0xF4.
    fn prefix_f4_part_3e(table: &mut Handlers)
        requires
            old(table).wf(),
            old(table).nodes().len() == 0,
            old(table).slots() == filled(Node::PrefixF4, 0x3E),
        ensures
            final(table).wf(),
            final(table).nodes().len() == 0,
            final(table).slots() == filled(Node::PrefixF4, 0x63),
    {
        table.set(0x3E, Loader::Dictuaddget);
        table.set(0x3F, Loader::Dictuaddgetref);
        table.set(0x41, Loader::Dictsetb);
        table.set(0x42, Loader::Dictisetb);
        table.set(0x43, Loader::Dictusetb);
        table.set(0x45, Loader::Dictsetgetb);
        table.set(0x46, Loader::Dictisetgetb);
        table.set(0x47, Loader::Dictusetgetb);
        table.set(0x49, Loader::Dictreplaceb);
        table.set(0x4A, Loader::Dictireplaceb);
        table.set(0x4B, Loader::Dictureplaceb);
        table.set(0x4D, Loader::Dictreplacegetb);
        table.set(0x4E, Loader::Dictireplacegetb);
        table.set(0x4F, Loader::Dictureplacegetb);
        table.set(0x51, Loader::Dictaddb);
        table.set(0x52, Loader::Dictiaddb);
        table.set(0x53, Loader::Dictuaddb);
        table.set(0x55, Loader::Dictaddgetb);
        table.set(0x56, Loader::Dictiaddgetb);
        table.set(0x57, Loader::Dictuaddgetb);
        table.set(0x59, Loader::Dictdel);
        table.set(0x5A, Loader::Dictidel);
        table.set(0x5B, Loader::Dictudel);
        table.set(0x62, Loader::Dictdelget);
        assert(table.slots() =~= filled(Node::PrefixF4, 0x63));
    }

    /// Registers bytes 0x63 to 0x7C of the table reached through 0xF4.
    fn prefix_f4_part_63(table: &mut Handlers)
        requires
            old(table).wf(),
            old(table).nodes().len() == 0,
            old(table).slots() == filled(Node::PrefixF4, 0x63),
        ensures
            final(table).wf(),
            final(table).nodes().len() == 0,
            final(table).slots() == filled(Node::PrefixF4, 0x7D),
    {
        table.set(0x63, Loader::Dictdelgetref);
        table.set(0x64, Loader::Dictidelget);
        table.set(0x65, Loader::Dictidelgetref);
        table.set(0x66, Loader::Dictudelget);
        table.set(0x67, Loader::Dictudelgetref);
        table.set(0x69, Loader::Dictgetoptref);
        table.set(0x6A, Loader::Dictigetoptref);
        table.set(0x6B, Loader::Dictugetoptref);
        table.set(0x6D, Loader::Dictsetgetoptref);
        table.set(0x6E, Loader::Dictisetgetoptref);
        table.set(0x6F, Loader::Dictusetgetoptref);
        table.set(0x70, Loader::Pfxdictset);
        table.set(0x71, Loader::Pfxdictreplace);
        table.set(0x72, Loader::Pfxdictadd);
        table.set(0x73, Loader::Pfxdictdel);
        table.set(0x74, Loader::Dictgetnext);
        table.set(0x75, Loader::Dictgetnexteq);
        table.set(0x76, Loader::Dictgetprev);
        table.set(0x77, Loader::Dictgetpreveq);
        table.set(0x78, Loader::Dictigetnext);
        table.set(0x79, Loader::Dictigetnexteq);
        table.set(0x7A, Loader::Dictigetprev);
        table.set(0x7B, Loader::Dictigetpreveq);
        table.set(0x7C, Loader::Dictugetnext);
        assert(table.slots() =~= filled(Node::PrefixF4, 0x7D));
    }

    /// Registers bytes 0x7D to 0x9C of the table reached through 0xF4.
    fn prefix_f4_part_7d(table: &mut Handlers)
        requires
            old(table).wf(),
            old(table).nodes().len() == 0,
            old(table).slots() == filled(Node::PrefixF4, 0x7D),
        ensures
            final(table).wf(),
            final(table).nodes().len() == 0,
            final(table).slots() == filled(Node::PrefixF4, 0x9D),
    {
        table.set(0x7D, Loader::Dictugetnexteq);
        table.set(0x7E, Loader::Dictugetprev);
        table.set(0x7F, Loader::Dictugetpreveq);
        table.set(0x82, Loader::Dictmin);
        table.set(0x83, Loader::Dictminref);
        table.set(0x84, Loader::Dictimin);
        table.set(0x85, Loader::Dictiminref);
        table.set(0x86, Loader::Dictumin);
        table.set(0x87, Loader::Dictuminref);
        table.set(0x8A, Loader::Dictmax);
        table.set(0x8B, Loader::Dictmaxref);
        table.set(0x8C, Loader::Dictimax);
        table.set(0x8D, Loader::Dictimaxref);
        table.set(0x8E, Loader::Dictumax);
        table.set(0x8F, Loader::Dictumaxref);
        table.set(0x92, Loader::Dictremmin);
        table.set(0x93, Loader::Dictremminref);
        table.set(0x94, Loader::Dictiremmin);
        table.set(0x95, Loader::Dictiremminref);
        table.set(0x96, Loader::Dicturemmin);
        table.set(0x97, Loader::Dicturemminref);
        table.set(0x9A, Loader::Dictremmax);
        table.set(0x9B, Loader::Dictremmaxref);
        table.set(0x9C, Loader::Dictiremmax);
        assert(table.slots() =~= filled(Node::PrefixF4, 0x9D));
    }

    /// Registers bytes 0x9D to 0xFF of the table reached through 0xF4.
    fn prefix_f4_part_9d(table: &mut Handlers)
        requires
            old(table).wf(),
            old(table).nodes().len() == 0,
            old(table).slots() == filled(Node::PrefixF4, 0x9D),
        ensures
            final(table).wf(),
            final(table).nodes().len() == 0,
            final(table).slots() == filled(Node::PrefixF4, 0x100),
    {
        table.set(0x9D, Loader::Dictiremmaxref);
        table.set(0x9E, Loader::Dicturemmax);
        table.set(0x9F, Loader::Dicturemmaxref);
        table.set(0xA0, Loader::Dictigetjmp);
        table.set(0xA1, Loader::Dictugetjmp);
        table.set(0xA2, Loader::Dictigetexec);
        table.set(0xA3, Loader::Dictugetexec);
        table.set_range(0xA4..0xA8, Loader::Dictpushconst);
        table.set(0xA8, Loader::Pfxdictgetq);
        table.set(0xA9, Loader::Pfxdictget);
        table.set(0xAA, Loader::Pfxdictgetjmp);
        table.set(0xAB, Loader::Pfxdictgetexec);
        table.set_range(0xAC..0xAF, Loader::Pfxdictswitch);
        table.set(0xAF, Loader::Pfxdictswitch);
        table.set(0xB1, Loader::Subdictget);
        table.set(0xB2, Loader::Subdictiget);
        table.set(0xB3, Loader::Subdictuget);
        table.set(0xB5, Loader::Subdictrpget);
        table.set(0xB6, Loader::Subdictirpget);
        table.set(0xB7, Loader::Subdicturpget);
        table.set(0xBC, Loader::Dictigetjmpz);
        table.set(0xBD, Loader::Dictugetjmpz);
        table.set(0xBE, Loader::Dictigetexecz);
        table.set(0xBF, Loader::Dictugetexecz);
        assert(table.slots() =~= filled(Node::PrefixF4, 0x100));
    }

    /// The table reached through the opcode prefix 0xF8.
    fn prefix_f8_table() -> (r: Handlers)
        ensures
            r.wf(),
            r.nodes().len() == 0,
            conforms_from(r.nodes(), r.slots(), Node::PrefixF8, 2),
    {
        let mut table = Handlers::new();
        assert(table.slots() =~= filled(Node::PrefixF8, 0));
        Handlers::prefix_f8_part_00(&mut table);
        Handlers::prefix_f8_part_41(&mut table);
        table
    }

    /// Registers bytes 0x00 to 0x40 of the table reached through 0xF8.
    fn prefix_f8_part_00(table: &mut Handlers)
        requires
            old(table).wf(),
            old(table).nodes().len() == 0,
            old(table).slots() == filled(Node::PrefixF8, 0x00),
        ensures
            final(table).wf(),
            final(table).nodes().len() == 0,
            final(table).slots() == filled(Node::PrefixF8, 0x41),
    {
        table.set(0x00, Loader::Accept);
        table.set(0x01, Loader::Setgaslimit);
        table.set(0x02, Loader::Buygas);
        table.set(0x04, Loader::Gramtogas);
        table.set(0x05, Loader::Gastogram);
        table.set(0x0F, Loader::Commit);
        table.set(0x10, Loader::Randu256);
        table.set(0x11, Loader::Rand);
        table.set(0x14, Loader::Setrand);
        table.set(0x15, Loader::Addrand);
        table.set(0x20, Loader::Getparam);
        table.set(0x21, Loader::Getparam);
        table.set(0x22, Loader::Getparam);
        table.set(0x23, Loader::Now);
        table.set(0x24, Loader::Blocklt);
        table.set(0x25, Loader::Ltime);
        table.set(0x26, Loader::Randseed);
        table.set(0x27, Loader::Balance);
        table.set(0x28, Loader::MyAddr);
        table.set(0x29, Loader::ConfigRoot);
        table.set(0x30, Loader::ConfigDict);
        table.set(0x32, Loader::ConfigRefParam);
        table.set(0x33, Loader::ConfigOptParam);
        table.set(0x40, Loader::Getglobvar);
        assert(table.slots() =~= filled(Node::PrefixF8, 0x41));
    }

    /// Registers bytes 0x41 to 0xFF of the table reached through 0xF8.
    fn prefix_f8_part_41(table: &mut Handlers)
        requires
            old(table).wf(),
            old(table).nodes().len() == 0,
            old(table).slots() == filled(Node::PrefixF8, 0x41),
        ensures
            final(table).wf(),
            final(table).nodes().len() == 0,
            final(table).slots() == filled(Node::PrefixF8, 0x100),
    {
        table.set_range(0x41..0x5F, Loader::Getglob);
        table.set(0x5F, Loader::Getglob);
        table.set(0x60, Loader::Setglobvar);
        table.set_range(0x61..0x7F, Loader::Setglob);
        table.set(0x7F, Loader::Setglob);
        assert(table.slots() =~= filled(Node::PrefixF8, 0x100));
    }

    /// The table reached through the opcode prefix 0xFA.
    fn prefix_fa_table() -> (r: Handlers)
        ensures
            r.wf(),
            r.nodes().len() == 0,
            conforms_from(r.nodes(), r.slots(), Node::PrefixFA, 2),
    {
        let mut table = Handlers::new();
        table.set(0x00, Loader::Ldgrams);
        table.set(0x01, Loader::Ldvarint16);
        table.set(0x02, Loader::Stgrams);
        table.set(0x03, Loader::Stvarint16);
        table.set(0x04, Loader::Ldvaruint32);
        table.set(0x05, Loader::Ldvarint32);
        table.set(0x06, Loader::Stvaruint32);
        table.set(0x07, Loader::Stvarint32);
        table.set(0x40, Loader::Ldmsgaddr(Variant::Signaling));
        table.set(0x41, Loader::Ldmsgaddr(Variant::Quiet));
        table.set(0x42, Loader::Parsemsgaddr(Variant::Signaling));
        table.set(0x43, Loader::Parsemsgaddr(Variant::Quiet));
        table.set(0x44, Loader::RewriteStdAddr(Variant::Signaling));
        table.set(0x45, Loader::RewriteStdAddr(Variant::Quiet));
        table.set(0x46, Loader::RewriteVarAddr(Variant::Signaling));
        table.set(0x47, Loader::RewriteVarAddr(Variant::Quiet));
        table
    }

    /// The table reached through the opcode prefix 0xFB.
    fn prefix_fb_table() -> (r: Handlers)
        ensures
            r.wf(),
            r.nodes().len() == 0,
            conforms_from(r.nodes(), r.slots(), Node::PrefixFB, 2),
    {
        let mut table = Handlers::new();
        table.set(0x00, Loader::Sendrawmsg);
        table.set(0x02, Loader::Rawreserve);
        table.set(0x03, Loader::Rawreservex);
        table.set(0x04, Loader::Setcode);
        table.set(0x06, Loader::Setlibcode);
        table.set(0x07, Loader::Changelib);
        table
    }

    /// The table reached through the opcode prefix 0xF9.
    fn prefix_f9_table() -> (r: Handlers)
        ensures
            r.wf(),
            r.nodes().len() == 0,
            conforms_from(r.nodes(), r.slots(), Node::PrefixF9, 2),
    {
        let mut table = Handlers::new();
        table.set(0x00, Loader::Hashcu);
        table.set(0x01, Loader::Hashsu);
        table.set(0x02, Loader::Sha256u);
        table.set(0x10, Loader::Chksignu);
        table.set(0x11, Loader::Chksigns);
        table.set(0x40, Loader::Cdatasizeq);
        table.set(0x41, Loader::Cdatasize);
        table.set(0x42, Loader::Sdatasizeq);
        table.set(0x43, Loader::Sdatasize);
        table
    }

    /// The table reached through the opcode prefix 0xFE.
    fn prefix_fe_table() -> (r: Handlers)
        ensures
            r.wf(),
            r.nodes().len() == 0,
            conforms_from(r.nodes(), r.slots(), Node::PrefixFE, 2),
    {
        let mut table = Handlers::new();
        table.set(0x00, Loader::DumpStack);
        table.set_range(0x01..0x0F, Loader::DumpStackTop);
        table.set(0x10, Loader::DumpHex);
        table.set(0x11, Loader::PrintHex);
        table.set(0x12, Loader::DumpBin);
        table.set(0x13, Loader::PrintBin);
        table.set(0x14, Loader::DumpStr);
        table.set(0x15, Loader::PrintStr);
        table.set(0x1E, Loader::DebugOff);
        table.set(0x1F, Loader::DebugOn);
        table.set_range(0x20..0x2F, Loader::DumpVar);
        table.set_range(0x30..0x3F, Loader::PrintVar);
        table.set_range(0xF0..0xFF, Loader::DumpString);
        table.set(0xFF, Loader::DumpString);
        table
    }

    /// The table reached through the opcode prefix 0xFF.
    fn prefix_ff_table() -> (r: Handlers)
        ensures
            r.wf(),
            r.nodes().len() == 0,
            conforms_from(r.nodes(), r.slots(), Node::PrefixFF, 2),
    {
        let mut table = Handlers::new();
        table.set_range(0x00..0xF0, Loader::Setcp);
        table.set(0xF0, Loader::Setcpx);
        table.set_range(0xF1..0xFF, Loader::Setcp);
        table.set(0xFF, Loader::Setcp);
        table
    }
}

} // verus!
