# tweetchive

A tweet archive in two services: a scraper that takes archival requests from
RabbitMQ, crawls Twitter and stores media, and a server that answers from the
archive in SQL and CouchDB.

- `src/` is the verified library (Verus). It holds the message and
  configuration types, the request and URL formats, token handling, and the
  decisions the services take between their network calls: the thread and
  user crawls, the media archive and the browser login are state machines
  whose steps, invariants and termination are proved.
- `app/` runs the services: configuration files, HTTP routes, RabbitMQ,
  CouchDB, SQL, the WebDriver browser, youtube-dl and Twitter requests. It
  asks the library what to do and reports back what happened.
- `tests/` exercises the library on concrete values.

Finished archives are serialized with rkyv and published on their queues
uncompressed; media is uploaded with a plain HTTP PUT to the bucket address.
