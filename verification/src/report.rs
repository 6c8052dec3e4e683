//! The broker-independent report: the canonical batches one upload yields,
//! the decode error taxonomy, and the full ingestion step against the
//! reconciliation stores.

use vstd::prelude::*;
use crate::fiscal_transaction::{FiscalTransaction, FiscalTransactionV};
use crate::model::BrokerType;
use crate::trade_operation::{TradeOperation, TradeOperationV};

verus! {

/// The canonical outcome of decoding one export: the trade batch and the
/// fiscal batch, tagged with the broker they came from.
#[derive(Clone, PartialEq, Debug)]
pub struct AbstractReport {
    pub broker: BrokerType,
    pub trade_operations: Vec<TradeOperation>,
    pub fiscal_transactions: Vec<FiscalTransaction>,
}

#[verifier::ext_equal]
pub struct AbstractReportV {
    pub broker: BrokerType,
    pub trade_operations: Seq<TradeOperationV>,
    pub fiscal_transactions: Seq<FiscalTransactionV>,
}

impl View for AbstractReport {
    type V = AbstractReportV;

    open spec fn view(&self) -> AbstractReportV {
        AbstractReportV {
            broker: self.broker,
            trade_operations: self.trade_operations@.map_values(|t: TradeOperation| t@),
            fiscal_transactions: self.fiscal_transactions@.map_values(
                |t: FiscalTransaction| t@,
            ),
        }
    }
}

/// Why an upload failed to decode, per broker format.
#[derive(Clone, PartialEq, Debug)]
pub enum ReportProcessingError {
    ExanteReportParsingError(crate::exante::model::ExanteReportParsingError),
    FreedomfinanceReportParsingError(
        crate::freedomfinance::model::FreedomfinanceReportParsingError,
    ),
}

#[verifier::ext_equal]
pub enum ReportProcessingErrorV {
    ExanteReportParsingError(crate::exante::model::ExanteReportParsingErrorV),
    FreedomfinanceReportParsingError(
        crate::freedomfinance::model::FreedomfinanceReportParsingErrorV,
    ),
}

impl View for ReportProcessingError {
    type V = ReportProcessingErrorV;

    open spec fn view(&self) -> ReportProcessingErrorV {
        match self {
            ReportProcessingError::ExanteReportParsingError(e)
                => ReportProcessingErrorV::ExanteReportParsingError(e@),
            ReportProcessingError::FreedomfinanceReportParsingError(e)
                => ReportProcessingErrorV::FreedomfinanceReportParsingError(e@),
        }
    }
}

/// The row registered for one upload: the owning portfolio, the uploaded
/// file's label, and the broker.
#[derive(Clone, PartialEq, Debug)]
pub struct InsertReportUpload {
    pub portfolio_id: String,
    pub label: String,
    pub broker: BrokerType,
}

#[verifier::ext_equal]
pub struct InsertReportUploadV {
    pub portfolio_id: Seq<char>,
    pub label: Seq<char>,
    pub broker: BrokerType,
}

impl View for InsertReportUpload {
    type V = InsertReportUploadV;

    open spec fn view(&self) -> InsertReportUploadV {
        InsertReportUploadV {
            portfolio_id: self.portfolio_id@,
            label: self.label@,
            broker: self.broker,
        }
    }
}

/// What one processed upload reports back: the upload's assigned id and how
/// many records of each kind were persisted (not merely parsed).
#[derive(Clone, PartialEq, Debug)]
pub struct ReportProcessingResult {
    pub id: String,
    pub fiscal_transactions: usize,
    pub trade_operations: usize,
}

// ---- the ingestion pipeline

/// What UTF-8 decoding yields on a byte stream: its characters, or nothing
/// when the bytes are not UTF-8 text.
pub uninterp spec fn utf8_decode(b: Seq<u8>) -> Option<Seq<char>>;

/// Relies on `core::str::from_utf8`: decodes the bytes as UTF-8 text,
/// `None` exactly on ill-formed input; the empty stream is the empty
/// string.
#[verifier::external_body]
fn bytes_to_text(b: &[u8]) -> (r: Option<String>)
    ensures
        r is Some <==> utf8_decode(b@) is Some,
        r is Some ==> Some(r->Some_0@) == utf8_decode(b@),
        b@.len() == 0 ==> r is Some && r->Some_0@.len() == 0,
{
    match core::str::from_utf8(b) {
        Ok(s) => Some(s.to_owned()),
        Err(_) => None,
    }
}

/// The one warning line an unrecognized vocabulary value produces.
pub open spec fn spec_warning(broker: BrokerType, variant: Seq<char>) -> Seq<char> {
    "When parsing "@ + crate::model::spec_broker_name(broker)
        + " report for transactions, found unrecognized type: '"@ + variant + "'"@
}

/// One warning per unrecognized fiscal-event kind in the batch, in batch
/// order — exactly one per occurrence, and none for recognized kinds.
pub open spec fn spec_warnings(broker: BrokerType, fiscals: Seq<FiscalTransactionV>) -> Seq<
    Seq<char>,
>
    decreases fiscals.len(),
{
    if fiscals.len() == 0 {
        Seq::empty()
    } else {
        spec_warnings(broker, fiscals.drop_last()) + (match fiscals.last().operation_type {
            crate::fiscal_transaction::FiscalTransactionTypeV::Unrecognized(v) => seq![
                spec_warning(broker, v),
            ],
            _ => Seq::empty(),
        })
    }
}

/// How many records of a batch carry an unrecognized kind.
pub open spec fn spec_unrecognized_count(fiscals: Seq<FiscalTransactionV>) -> int
    decreases fiscals.len(),
{
    if fiscals.len() == 0 {
        0
    } else {
        spec_unrecognized_count(fiscals.drop_last()) + (
        if fiscals.last().operation_type is Unrecognized {
            1int
        } else {
            0int
        })
    }
}

/// Unknown-vocabulary tolerance, counted: a batch yields exactly one
/// warning per unrecognized kind it holds — never none, never more.
pub proof fn lemma_one_warning_per_unrecognized(
    broker: BrokerType,
    fiscals: Seq<FiscalTransactionV>,
)
    ensures
        spec_warnings(broker, fiscals).len() == spec_unrecognized_count(fiscals),
    decreases fiscals.len(),
{
    if fiscals.len() > 0 {
        lemma_one_warning_per_unrecognized(broker, fiscals.drop_last());
    }
}

/// The trade batch tagged for one portfolio and upload.
pub open spec fn spec_insert_trades(
    portfolio_id: Seq<char>,
    upload_id: Seq<char>,
    ts: Seq<TradeOperationV>,
) -> Seq<crate::trade_operation::InsertTradeOperationV> {
    ts.map_values(
        |t: TradeOperationV| crate::trade_operation::InsertTradeOperationV {
            portfolio_id: portfolio_id,
            report_upload_id: Some(upload_id),
            trade_operation: t,
        },
    )
}

/// The fiscal batch tagged for one portfolio and upload.
pub open spec fn spec_insert_fiscals(
    portfolio_id: Seq<char>,
    upload_id: Seq<char>,
    ts: Seq<FiscalTransactionV>,
) -> Seq<crate::fiscal_transaction::InsertFiscalTransactionV> {
    ts.map_values(
        |t: FiscalTransactionV| crate::fiscal_transaction::InsertFiscalTransactionV {
            portfolio_id: portfolio_id,
            report_upload_id: Some(upload_id),
            fiscal_transaction: t,
        },
    )
}

/// The store after one upload is processed: the upload registered, then
/// the fiscal batch and the trade batch reconciled by natural key.
pub open spec fn spec_processed(
    repo: crate::repository::CommonRepositoryV,
    portfolio_id: Seq<char>,
    label: Seq<char>,
    upload_id: Seq<char>,
    ab: AbstractReportV,
) -> crate::repository::CommonRepositoryV {
    crate::repository::CommonRepositoryV {
        report_uploads: repo.report_uploads.push(
            crate::repository::ReportUploadV {
                id: upload_id,
                upload: InsertReportUploadV { portfolio_id, label, broker: ab.broker },
            },
        ),
        fiscal_transactions: crate::repository::spec_upsert_fiscals(
            repo.fiscal_transactions,
            spec_insert_fiscals(portfolio_id, upload_id, ab.fiscal_transactions),
        ),
        trade_operations: crate::repository::spec_upsert_trades(
            repo.trade_operations,
            spec_insert_trades(portfolio_id, upload_id, ab.trade_operations),
        ),
    }
}

/// What a successful upload leaves behind: the assigned id and the per-kind
/// counts of persisted records in the result, one warning per unrecognized
/// vocabulary value, and the reconciled store.
pub open spec fn spec_report_processed(
    result: (ReportProcessingResult, Vec<String>),
    old_repo: crate::repository::CommonRepositoryV,
    new_repo: crate::repository::CommonRepositoryV,
    portfolio_id: Seq<char>,
    label: Seq<char>,
    upload_id: Seq<char>,
    ab: AbstractReportV,
) -> bool {
    &&& result.0.id@ == upload_id
    &&& result.0.trade_operations as int == ab.trade_operations.len()
    &&& result.0.fiscal_transactions as int == ab.fiscal_transactions.len()
    &&& crate::text::strings_view(result.1@) == spec_warnings(ab.broker, ab.fiscal_transactions)
    &&& new_repo == spec_processed(old_repo, portfolio_id, label, upload_id, ab)
}

/// Persists one decoded report: registers the upload, reconciles the
/// fiscal batch then the trade batch, and reports the counts and the
/// vocabulary warnings.
#[verifier::rlimit(60)]
fn persist_abstract_report(
    repository: &mut crate::repository::CommonRepository,
    portfolio_id: String,
    original_filename: String,
    report_upload_id: String,
    report: AbstractReport,
) -> (r: (ReportProcessingResult, Vec<String>))
    ensures
        spec_report_processed(
            r,
            old(repository)@,
            final(repository)@,
            portfolio_id@,
            original_filename@,
            report_upload_id@,
            report@,
        ),
{
    let ghost ab = report@;
    let ghost repo0 = repository@;
    // one warning per unrecognized vocabulary value
    let mut warnings: Vec<String> = Vec::new();
    let broker = report.broker;
    let nf = report.fiscal_transactions.len();
    let mut i: usize = 0;
    proof {
        assert(crate::text::strings_view(warnings@) =~= Seq::<Seq<char>>::empty());
        assert(ab.fiscal_transactions.take(0) =~= Seq::<FiscalTransactionV>::empty());
    }
    while i < nf
        invariant
            0 <= i <= nf,
            nf == report.fiscal_transactions@.len(),
            ab == report@,
            broker == report.broker,
            crate::text::strings_view(warnings@) == spec_warnings(
                broker,
                ab.fiscal_transactions.take(i as int),
            ),
        decreases nf - i,
    {
        proof {
            assert(ab.fiscal_transactions[i as int] == report.fiscal_transactions@[i as int]@);
            assert(ab.fiscal_transactions.take(i + 1).drop_last() =~= ab.fiscal_transactions.take(
                i as int,
            ));
            assert(ab.fiscal_transactions.take(i + 1).last() == ab.fiscal_transactions[i as int]);
        }
        match &report.fiscal_transactions[i].operation_type {
            crate::fiscal_transaction::FiscalTransactionType::Unrecognized(variant) => {
                let msg = String::from_str("When parsing ").concat(broker.name()).concat(
                    " report for transactions, found unrecognized type: '",
                ).concat(variant.as_str()).concat("'");
                let ghost w_old = warnings@;
                warnings.push(msg);
                proof {
                    assert(warnings@.last()@ =~= spec_warning(
                        broker,
                        ab.fiscal_transactions[i as int].operation_type->Unrecognized_0,
                    ));
                    assert(crate::text::strings_view(warnings@) =~= crate::text::strings_view(
                        w_old,
                    ).push(warnings@.last()@));
                    assert(crate::text::strings_view(warnings@) =~= spec_warnings(
                        broker,
                        ab.fiscal_transactions.take(i + 1),
                    ));
                }
            },
            _ => {
                proof {
                    assert(crate::text::strings_view(warnings@) =~= spec_warnings(
                        broker,
                        ab.fiscal_transactions.take(i + 1),
                    ));
                }
            },
        }
        i = i + 1;
    }
    proof {
        assert(ab.fiscal_transactions.take(nf as int) == ab.fiscal_transactions);
    }
    // register the upload
    let upload_id = repository.create_report_upload(
        InsertReportUpload {
            portfolio_id: portfolio_id.clone(),
            label: original_filename,
            broker: report.broker,
        },
        report_upload_id,
    );
    // tag and reconcile the fiscal batch
    let mut fiscal_batch: Vec<crate::fiscal_transaction::InsertFiscalTransaction> = Vec::new();
    let mut src_f = report.fiscal_transactions;
    let ghost src_f_g = src_f@;
    proof {
        assert(src_f_g.map_values(|t: FiscalTransaction| t@) =~= ab.fiscal_transactions);
    }
    while src_f.len() > 0
        invariant
            src_f@.len() <= src_f_g.len(),
            src_f@ == src_f_g.skip(src_f_g.len() - src_f@.len()),
            src_f_g.map_values(|t: FiscalTransaction| t@) == ab.fiscal_transactions,
            src_f_g.len() == ab.fiscal_transactions.len(),
            upload_id@ == report_upload_id@,
            fiscal_batch@.map_values(
                |t: crate::fiscal_transaction::InsertFiscalTransaction| t@,
            ) == spec_insert_fiscals(
                portfolio_id@,
                report_upload_id@,
                ab.fiscal_transactions.take(ab.fiscal_transactions.len() - src_f@.len()),
            ),
        decreases src_f@.len(),
    {
        let ghost done = ab.fiscal_transactions.len() - src_f@.len();
        let ghost before = src_f@;
        let t = src_f.remove(0);
        proof {
            assert(t == before[0]);
            let start = src_f_g.len() - before.len();
            assert(src_f_g.skip(start)[0] == src_f_g[start]);
            assert(t == src_f_g[done]);
            assert(src_f_g.map_values(|t: FiscalTransaction| t@)[done] == src_f_g[done]@);
            assert(t@ == ab.fiscal_transactions[done]);
            assert(src_f@ =~= src_f_g.skip(src_f_g.len() - src_f@.len()));
        }
        let row = crate::fiscal_transaction::InsertFiscalTransaction {
            portfolio_id: portfolio_id.clone(),
            report_upload_id: Some(upload_id.clone()),
            fiscal_transaction: t,
        };
        let ghost batch_old = fiscal_batch@;
        fiscal_batch.push(row);
        proof {
            assert(fiscal_batch@.map_values(
                |t: crate::fiscal_transaction::InsertFiscalTransaction| t@,
            ) =~= batch_old.map_values(
                |t: crate::fiscal_transaction::InsertFiscalTransaction| t@,
            ).push(fiscal_batch@.last()@));
            assert(ab.fiscal_transactions.take(done + 1).map_values(
                |t: FiscalTransactionV| crate::fiscal_transaction::InsertFiscalTransactionV {
                    portfolio_id: portfolio_id@,
                    report_upload_id: Some(report_upload_id@),
                    fiscal_transaction: t,
                },
            ) =~= ab.fiscal_transactions.take(done).map_values(
                |t: FiscalTransactionV| crate::fiscal_transaction::InsertFiscalTransactionV {
                    portfolio_id: portfolio_id@,
                    report_upload_id: Some(report_upload_id@),
                    fiscal_transaction: t,
                },
            ).push(
                crate::fiscal_transaction::InsertFiscalTransactionV {
                    portfolio_id: portfolio_id@,
                    report_upload_id: Some(report_upload_id@),
                    fiscal_transaction: ab.fiscal_transactions[done],
                },
            ));
        }
    }
    proof {
        assert(ab.fiscal_transactions.take(ab.fiscal_transactions.len() as int)
            == ab.fiscal_transactions);
    }
    let inserted_transactions = repository.create_fiscal_transactions(fiscal_batch);
    // tag and reconcile the trade batch
    let mut trade_batch: Vec<crate::trade_operation::InsertTradeOperation> = Vec::new();
    let mut src_t = report.trade_operations;
    let ghost src_t_g = src_t@;
    proof {
        assert(src_t_g.map_values(|t: TradeOperation| t@) =~= ab.trade_operations);
    }
    while src_t.len() > 0
        invariant
            src_t@.len() <= src_t_g.len(),
            src_t@ == src_t_g.skip(src_t_g.len() - src_t@.len()),
            src_t_g.map_values(|t: TradeOperation| t@) == ab.trade_operations,
            src_t_g.len() == ab.trade_operations.len(),
            upload_id@ == report_upload_id@,
            trade_batch@.map_values(|t: crate::trade_operation::InsertTradeOperation| t@)
                == spec_insert_trades(
                portfolio_id@,
                report_upload_id@,
                ab.trade_operations.take(ab.trade_operations.len() - src_t@.len()),
            ),
        decreases src_t@.len(),
    {
        let ghost done = ab.trade_operations.len() - src_t@.len();
        let ghost before = src_t@;
        let t = src_t.remove(0);
        proof {
            assert(t == before[0]);
            let start = src_t_g.len() - before.len();
            assert(src_t_g.skip(start)[0] == src_t_g[start]);
            assert(t == src_t_g[done]);
            assert(src_t_g.map_values(|t: TradeOperation| t@)[done] == src_t_g[done]@);
            assert(t@ == ab.trade_operations[done]);
            assert(src_t@ =~= src_t_g.skip(src_t_g.len() - src_t@.len()));
        }
        let row = crate::trade_operation::InsertTradeOperation {
            portfolio_id: portfolio_id.clone(),
            report_upload_id: Some(upload_id.clone()),
            trade_operation: t,
        };
        let ghost batch_old = trade_batch@;
        trade_batch.push(row);
        proof {
            assert(trade_batch@.map_values(
                |t: crate::trade_operation::InsertTradeOperation| t@,
            ) =~= batch_old.map_values(
                |t: crate::trade_operation::InsertTradeOperation| t@,
            ).push(trade_batch@.last()@));
            assert(ab.trade_operations.take(done + 1).map_values(
                |t: TradeOperationV| crate::trade_operation::InsertTradeOperationV {
                    portfolio_id: portfolio_id@,
                    report_upload_id: Some(report_upload_id@),
                    trade_operation: t,
                },
            ) =~= ab.trade_operations.take(done).map_values(
                |t: TradeOperationV| crate::trade_operation::InsertTradeOperationV {
                    portfolio_id: portfolio_id@,
                    report_upload_id: Some(report_upload_id@),
                    trade_operation: t,
                },
            ).push(
                crate::trade_operation::InsertTradeOperationV {
                    portfolio_id: portfolio_id@,
                    report_upload_id: Some(report_upload_id@),
                    trade_operation: ab.trade_operations[done],
                },
            ));
        }
    }
    proof {
        assert(ab.trade_operations.take(ab.trade_operations.len() as int) == ab.trade_operations);
    }
    let inserted_trade_operations = repository.create_trade_operations(trade_batch);
    let result = ReportProcessingResult {
        id: upload_id,
        fiscal_transactions: inserted_transactions,
        trade_operations: inserted_trade_operations,
    };
    (result, warnings)
}

/// Processes one upload: decodes the byte stream per the broker's format,
/// normalizes it into the canonical model, and hands the batches to the
/// reconciliation store. On any decode failure nothing at all is persisted.
pub fn process_report(
    repository: &mut crate::repository::CommonRepository,
    portfolio_id: String,
    broker: BrokerType,
    input: &[u8],
    original_filename: String,
    report_upload_id: String,
) -> (r: Result<(ReportProcessingResult, Vec<String>), crate::errors::DescriptiveError>)
    ensures
        r is Err ==> final(repository)@ == old(repository)@,
        r is Err ==> r->Err_0@ is ReportProcessingError,
        input@.len() == 0 ==> r is Ok && r->Ok_0.0.trade_operations == 0
            && r->Ok_0.0.fiscal_transactions == 0,
        broker == BrokerType::Exante ==> match utf8_decode(input@) {
            None => r is Err && r->Err_0@ == crate::errors::DescriptiveErrorV::ReportProcessingError(
                ReportProcessingErrorV::ExanteReportParsingError(
                    crate::exante::model::ExanteReportParsingErrorV::Encoding,
                ),
            ),
            Some(text) => match crate::exante::parse::spec_parse_report(text) {
                Err(e) => r is Err && r->Err_0@
                    == crate::errors::DescriptiveErrorV::ReportProcessingError(
                    ReportProcessingErrorV::ExanteReportParsingError(e),
                ),
                Ok(rep) => r is Ok && spec_report_processed(
                    r->Ok_0,
                    old(repository)@,
                    final(repository)@,
                    portfolio_id@,
                    original_filename@,
                    report_upload_id@,
                    crate::exante::from::spec_abstract_from_exante(rep),
                ),
            },
        },
        broker == BrokerType::Freedomfinance && input@.len() > 0 ==> match crate::jsonval::json_doc_of(
            input@,
        ) {
            None => r is Err
                && r->Err_0@->ReportProcessingError_0 is FreedomfinanceReportParsingError,
            Some(doc) => match crate::freedomfinance::parse::spec_extract_report(doc) {
                Err(name) => r is Err && r->Err_0@
                    == crate::errors::DescriptiveErrorV::ReportProcessingError(
                    ReportProcessingErrorV::FreedomfinanceReportParsingError(
                        crate::freedomfinance::model::FreedomfinanceReportParsingErrorV::Malformed(
                            name,
                        ),
                    ),
                ),
                Ok(rep) => r is Ok && spec_report_processed(
                    r->Ok_0,
                    old(repository)@,
                    final(repository)@,
                    portfolio_id@,
                    original_filename@,
                    report_upload_id@,
                    crate::freedomfinance::from::spec_abstract_from_freedomfinance(rep),
                ),
            },
        },
        broker == BrokerType::Freedomfinance && input@.len() == 0 ==> r is Ok
            && spec_report_processed(
            r->Ok_0,
            old(repository)@,
            final(repository)@,
            portfolio_id@,
            original_filename@,
            report_upload_id@,
            AbstractReportV {
                broker: BrokerType::Freedomfinance,
                trade_operations: Seq::empty(),
                fiscal_transactions: Seq::empty(),
            },
        ),
{
    let parsed: AbstractReport = match broker {
        BrokerType::Exante => {
            let text = match bytes_to_text(input) {
                Some(t) => t,
                None => {
                    return Err(
                        crate::errors::DescriptiveError::ReportProcessingError(
                            ReportProcessingError::ExanteReportParsingError(
                                crate::exante::model::ExanteReportParsingError::Encoding,
                            ),
                        ),
                    );
                },
            };
            match crate::exante::parse::parse_report(text.as_str()) {
                Ok(rep) => rep.into_abstract(),
                Err(e) => {
                    return Err(
                        crate::errors::DescriptiveError::ReportProcessingError(
                            ReportProcessingError::ExanteReportParsingError(e),
                        ),
                    );
                },
            }
        },
        BrokerType::Freedomfinance => {
            match crate::freedomfinance::parse::parse_report(input) {
                Ok(rep) => {
                    proof {
                        if input@.len() == 0 {
                            assert(rep@.trades =~= Seq::<
                                crate::freedomfinance::model::DetailedTradeV,
                            >::empty());
                            assert(crate::freedomfinance::from::spec_abstract_from_freedomfinance(
                                rep@,
                            ).trade_operations =~= Seq::<TradeOperationV>::empty());
                            assert(crate::freedomfinance::from::spec_abstract_from_freedomfinance(
                                rep@,
                            ).fiscal_transactions =~= Seq::<FiscalTransactionV>::empty());
                        }
                    }
                    rep.into_abstract()
                },
                Err(e) => {
                    return Err(
                        crate::errors::DescriptiveError::ReportProcessingError(
                            ReportProcessingError::FreedomfinanceReportParsingError(e),
                        ),
                    );
                },
            }
        },
    };
    let ghost ab = parsed@;
    let out = persist_abstract_report(
        repository,
        portfolio_id,
        original_filename,
        report_upload_id,
        parsed,
    );
    Ok(out)
}

/// The report mutation surface marker.
pub struct ReportMutation {}

} // verus!
