use vstd::prelude::*;

use crate::value::{field_value, Record, Value};

verus! {

/// One item of a payload: named values.
pub type KeyValData = Vec<(String, Value)>;

/// Items grouped under a name.
pub type DataStore = Vec<(String, Vec<KeyValData>)>;

/// The body of a request to one of the New Relic APIs.
#[derive(Debug, PartialEq)]
pub enum NewRelicApiModel {
    Metrics(MetricsApiModel),
    Events(EventsApiModel),
    Logs(LogsApiModel),
}

/// Metrics body: one group, named `metrics`.
#[derive(Debug, PartialEq)]
pub struct MetricsApiModel(pub Vec<DataStore>);

/// Events body: the events themselves.
#[derive(Debug, PartialEq)]
pub struct EventsApiModel(pub Vec<KeyValData>);

/// Logs body: one group, named `logs`.
#[derive(Debug, PartialEq)]
pub struct LogsApiModel(pub Vec<DataStore>);

/// A single store that holds `items` under `name`.
pub open spec fn single_store(
    stores: Seq<DataStore>,
    name: Seq<char>,
    items: Vec<KeyValData>,
) -> bool {
    &&& stores.len() == 1
    &&& stores[0]@.len() == 1
    &&& stores[0]@[0].0@ == name
    &&& stores[0]@[0].1 == items
}

fn store_of(name: &str, items: Vec<KeyValData>) -> (r: Vec<DataStore>)
    ensures
        single_store(r@, name@, items),
{
    let mut store: DataStore = Vec::new();
    store.push((String::from_str(name), items));
    let mut stores: Vec<DataStore> = Vec::new();
    stores.push(store);
    stores
}

impl MetricsApiModel {
    pub fn new(metric_array: Vec<KeyValData>) -> (r: Self)
        ensures
            single_store(r.0@, "metrics"@, metric_array),
    {
        MetricsApiModel(store_of("metrics", metric_array))
    }
}

impl EventsApiModel {
    pub fn new(events_array: Vec<KeyValData>) -> (r: Self)
        ensures
            r.0 == events_array,
    {
        EventsApiModel(events_array)
    }
}

impl LogsApiModel {
    pub fn new(logs_array: Vec<KeyValData>) -> (r: Self)
        ensures
            single_store(r.0@, "logs"@, logs_array),
    {
        LogsApiModel(store_of("logs", logs_array))
    }
}

/// Why no request body could be made.
#[derive(Clone, Debug, PartialEq)]
pub struct NewRelicSinkError {
    pub message: String,
}

/// One log as the logs API takes it: its fields in order, followed by a
/// default `message` where the log has none.
pub open spec fn log_item(src: Seq<(String, Value)>, item: Seq<(String, Value)>) -> bool {
    if field_value(src, "message"@) is Some {
        item == src
    } else {
        &&& item.len() == src.len() + 1
        &&& item.take(src.len() as int) == src
        &&& item.last().0@ == "message"@
        &&& item.last().1 is Bytes
        &&& item.last().1->Bytes_0@ == "log from vector"@
    }
}

fn copy_fields(fields: &Vec<(String, Value)>) -> (r: Vec<(String, Value)>)
    ensures
        r@ == fields@,
{
    let mut out: Vec<(String, Value)> = Vec::new();
    let n = fields.len();
    let mut i: usize = 0;
    while i < n
        invariant
            n == fields@.len(),
            i <= n,
            out@ == fields@.take(i as int),
        decreases n - i,
    {
        out.push((fields[i].0.clone(), fields[i].1.duplicate()));
        assert(out@ =~= fields@.take(i + 1));
        i = i + 1;
    }
    assert(fields@.take(n as int) =~= fields@);
    out
}

impl LogsApiModel {
    /// The logs body for a batch of logs; refused when there is none.
    pub fn try_from_logs(logs: Vec<Record>) -> (r: Result<LogsApiModel, NewRelicSinkError>)
        ensures
            r is Err <==> logs@.len() == 0,
            r is Err ==> r->Err_0.message@ == "No valid logs to generate"@,
            r is Ok ==> {
                let stores = r->Ok_0.0@;
                &&& stores.len() == 1
                &&& stores[0]@.len() == 1
                &&& stores[0]@[0].0@ == "logs"@
                &&& stores[0]@[0].1@.len() == logs@.len()
                &&& forall|i: int|
                    0 <= i < logs@.len() ==> log_item(
                        logs@[i].fields@,
                        #[trigger] stores[0]@[0].1@[i]@,
                    )
            },
    {
        let mut logs_array: Vec<KeyValData> = Vec::new();
        let n = logs.len();
        let mut i: usize = 0;
        while i < n
            invariant
                n == logs@.len(),
                i <= n,
                logs_array@.len() == i,
                forall|k: int|
                    0 <= k < i ==> log_item(logs@[k].fields@, #[trigger] logs_array@[k]@),
            decreases n - i,
        {
            let mut log_model = copy_fields(&logs[i].fields);
            if logs[i].get(&String::from_str("message")).is_none() {
                log_model.push(
                    (String::from_str("message"), Value::Bytes(String::from_str("log from vector"))),
                );
                assert(log_model@.take(logs@[i as int].fields@.len() as int) =~= logs@[i as int].fields@);
            }
            logs_array.push(log_model);
            i = i + 1;
        }
        if n == 0 {
            Err(NewRelicSinkError { message: String::from_str("No valid logs to generate") })
        } else {
            Ok(LogsApiModel::new(logs_array))
        }
    }
}

} // verus!
