# serverless_cache

A cache in front of a slow origin, served through a CDN. Three Lambda
handlers share one verified library:

- `get-cache` answers `?key=...`: from the DynamoDB table while the entry has
  not expired, otherwise (with `&origin_url=...`) from the origin.
- `set-cache` takes cache requests from an SQS queue, writes them into the
  table, warms the CDN up, and reports the messages it could not store.
- `origin` stands in for the slow service.

Layout:

- `src/` is the library, verified with Verus: the decimal encoding of numbers
  (`decimal`), the item encoding of cache entries (`models`, `utils::dynamodb`),
  the requests to the table (`queries`), the decisions of each handler
  (`handlers`), HTTP replies (`utils::api_helper`), the clock (`clock`), and the
  properties that span them (`laws`).
- `app/` runs the handlers: Lambda runtimes, the DynamoDB SDK, HTTP calls and
  JSON (de)serialisation.
- `tests/` exercises the library on concrete values.
